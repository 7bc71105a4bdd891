use adb_remote::{Adb, ExecKind, Invocation, RemoteOp};

fn id(s: &str) -> Option<String> {
    Some(s.to_string())
}

#[test]
fn serial_is_embedded_verbatim() {
    assert_eq!(Adb::new(id("emulator-5554"), false, false).get_cmd_prefix(), "adb -s emulator-5554");
    assert_eq!(Adb::new(id("192.168.1.7:5555"), false, false).get_cmd_prefix(), "adb -s 192.168.1.7:5555");
    assert_eq!(Adb::new(id("a b\tc"), false, false).get_cmd_prefix(), "adb -s a b\tc");
    assert_eq!(Adb::new(id("sérial-ü"), false, false).get_cmd_prefix(), "adb -s sérial-ü");
}

#[test]
fn empty_serial_still_selects_by_serial() {
    assert_eq!(Adb::new(id(""), true, true).get_cmd_prefix(), "adb -s ");
}

#[test]
fn serial_wins_over_both_flags() {
    for tcp in [false, true] {
        for usb in [false, true] {
            assert_eq!(Adb::new(id("R58M"), tcp, usb).get_cmd_prefix(), "adb -s R58M");
        }
    }
}

#[test]
fn network_flag_selects_network_addressing() {
    assert_eq!(Adb::new(None, true, false).get_cmd_prefix(), "adb -e");
}

#[test]
fn usb_flag_selects_usb_addressing() {
    assert_eq!(Adb::new(None, false, true).get_cmd_prefix(), "adb -d");
}

#[test]
fn no_hint_gives_bare_prefix() {
    assert_eq!(Adb::new(None, false, false).get_cmd_prefix(), "adb");
}

#[test]
fn network_wins_over_usb() {
    assert_eq!(Adb::new(None, true, true).get_cmd_prefix(), "adb -e");
}

#[test]
fn descriptor_is_a_plain_value() {
    let a = Adb::new(id("x"), true, false);
    let b = a.clone();
    assert_eq!(a, b);
    assert_ne!(a, Adb::new(id("x"), true, true));
    assert_ne!(a, Adb::new(id("y"), true, false));
    assert_ne!(a, Adb::new(None, true, false));
    assert_eq!(b.get_cmd_prefix(), a.get_cmd_prefix());
    assert!(format!("{:?}", a).contains("Adb"));
}

#[test]
fn shell_line_has_prefix_token_and_command() {
    let got = Adb::new(None, false, false).shell("ls -l /data");
    assert_eq!(got, Invocation { kind: ExecKind::Interactive, line: "adb shell ls -l /data".to_string() });
    let got = Adb::new(id("S1"), true, true).shell("id");
    assert_eq!(got, Invocation { kind: ExecKind::Interactive, line: "adb -s S1 shell id".to_string() });
}

#[test]
fn shell_with_empty_command_keeps_the_separator() {
    assert_eq!(Adb::new(None, true, false).shell("").line, "adb -e shell ");
}

#[test]
fn check_call_line_matches_shell_but_is_not_interactive() {
    let adb = Adb::new(None, false, true);
    let got = adb.check_call("mount -o remount,rw /");
    assert_eq!(got, Invocation { kind: ExecKind::Call, line: "adb -d shell mount -o remount,rw /".to_string() });
    assert_eq!(got.line, adb.shell("mount -o remount,rw /").line);
}

#[test]
fn push_remaps_the_destination() {
    let adb = Adb::new(None, false, false);
    let got = adb.push("/local/a", "/data/b", |p: &str| format!("/mnt/rootfs{}", p));
    assert_eq!(got, Invocation { kind: ExecKind::Call, line: "adb push /local/a /mnt/rootfs/data/b".to_string() });
}

#[test]
fn pull_remaps_the_source() {
    let adb = Adb::new(id("S1"), false, false);
    let got = adb.pull("/data/b", "/local/a", |p: &str| format!("/mnt/rootfs{}", p));
    assert_eq!(got, Invocation { kind: ExecKind::Call, line: "adb -s S1 pull /mnt/rootfs/data/b /local/a".to_string() });
}

#[test]
fn push_leaves_the_source_alone_and_pull_the_destination() {
    let adb = Adb::new(None, true, false);
    let upper = |p: &str| p.to_uppercase();
    assert_eq!(adb.push("/x/y", "/x/y", upper).line, "adb -e push /x/y /X/Y");
    assert_eq!(adb.pull("/x/y", "/x/y", upper).line, "adb -e pull /X/Y /x/y");
}

#[test]
fn remapper_sees_exactly_the_device_side_path() {
    let adb = Adb::new(None, false, false);
    let seen = std::cell::RefCell::new(Vec::new());
    let record = |p: &str| {
        seen.borrow_mut().push(p.to_string());
        p.to_string()
    };
    adb.push("/local/a", "/data/b", &record);
    adb.pull("/data/c", "/local/d", &record);
    assert_eq!(*seen.borrow(), vec!["/data/b".to_string(), "/data/c".to_string()]);
}

#[test]
fn check_output_runs_the_command_as_given() {
    for adb in [Adb::new(None, false, false), Adb::new(id("S1"), true, true), Adb::new(None, true, false)] {
        let got = adb.check_output("uname -a");
        assert_eq!(got, Invocation { kind: ExecKind::Capture, line: "uname -a".to_string() });
        assert_ne!(got.line, adb.shell("uname -a").line);
        assert_ne!(got.line, adb.check_call("uname -a").line);
    }
}

#[test]
fn equal_descriptors_give_identical_command_lines() {
    for serial in [None, id("S1"), id("")] {
        for tcp in [false, true] {
            for usb in [false, true] {
                let a = Adb::new(serial.clone(), tcp, usb);
                let b = Adb::new(serial.clone(), tcp, usb);
                let remap = |p: &str| format!("/r{}", p);
                assert_eq!(a.get_cmd_prefix().as_bytes(), b.get_cmd_prefix().as_bytes());
                assert_eq!(a.begin_check_connection(), b.begin_check_connection());
                assert_eq!(a.continue_check_connection(Ok(0)), b.continue_check_connection(Ok(0)));
                assert_eq!(a.shell("ls"), b.shell("ls"));
                assert_eq!(a.check_call("ls"), b.check_call("ls"));
                assert_eq!(a.push("s", "/d", remap), b.push("s", "/d", remap));
                assert_eq!(a.pull("/s", "d", remap), b.pull("/s", "d", remap));
                assert_eq!(a.check_output("ls"), b.check_output("ls"));
            }
        }
    }
}

fn planned_shell_line<B: RemoteOp>(backend: &B, cmd: &str) -> String {
    backend.shell(cmd).line
}

#[test]
fn backend_can_be_used_through_the_trait() {
    assert_eq!(planned_shell_line(&Adb::new(None, false, true), "true"), "adb -d shell true");
}
