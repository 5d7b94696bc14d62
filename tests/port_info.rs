use jrserial::{classify_port, get_port_type_info, list_ports_text, PortListing};

#[test]
fn pts_path_is_pseudo_terminal() {
    let a = get_port_type_info("/dev/pts/3", false, "");
    let b = get_port_type_info("/dev/pts/3", false, "");
    assert!(a.is_pseudo_terminal);
    assert!(!a.is_symlink);
    assert!(!a.is_bluetooth);
    assert_eq!(a, b);
}

#[test]
fn symlink_to_pts_is_pseudo_terminal() {
    let i = get_port_type_info("/tmp/ttyV0", true, "/dev/pts/7");
    assert!(i.is_symlink);
    assert!(i.is_pseudo_terminal);
}

#[test]
fn symlink_with_unreadable_target() {
    let i = get_port_type_info("/tmp/ttyV0", true, "");
    assert!(i.is_symlink);
    assert!(!i.is_pseudo_terminal);
}

#[test]
fn legacy_pty_is_pseudo_terminal() {
    assert!(get_port_type_info("/dev/ptyp0", false, "").is_pseudo_terminal);
}

#[test]
fn hardware_port_is_plain() {
    let i = get_port_type_info("/dev/ttyUSB0", false, "");
    assert!(!i.is_symlink);
    assert!(!i.is_pseudo_terminal);
    assert!(!i.is_bluetooth);
}

#[test]
fn bluetooth_name_matches_any_case() {
    assert!(get_port_type_info("/dev/cu.Bluetooth-Modem", false, "").is_bluetooth);
    assert!(get_port_type_info("/dev/tty.BLUETOOTH-Incoming", false, "").is_bluetooth);
    assert!(get_port_type_info("COM7-bluetooth", false, "").is_bluetooth);
}

#[test]
fn rfcomm_is_bluetooth() {
    assert!(get_port_type_info("/dev/rfcomm0", false, "").is_bluetooth);
    assert!(!get_port_type_info("/tmp/dev/rfcomm0", false, "").is_bluetooth);
}

#[test]
fn classify_uses_given_lower_case_form() {
    // the lower-case form is taken as given, so a mismatching one decides
    let i = classify_port("/dev/ttyS0", "bluetooth", false, "");
    assert!(i.is_bluetooth);
    let j = classify_port("/dev/cu.Bluetooth-Modem", "/dev/cu.x", false, "");
    assert!(!j.is_bluetooth);
}

#[test]
fn lowercasing_reaches_classification() {
    // the upper-case marker only matches after folding
    assert!(!classify_port("/dev/BLUETOOTH", "/dev/BLUETOOTH", false, "").is_bluetooth);
    assert!(get_port_type_info("/dev/BLUETOOTH", false, "").is_bluetooth);
}

fn listing(name: &str, bt: bool, link: bool, target: &str) -> PortListing {
    PortListing {
        name: name.to_string(),
        transport_bluetooth: bt,
        is_symlink: link,
        link_target: target.to_string(),
    }
}

#[test]
fn list_text_has_one_record_per_port() {
    let ports = vec![
        listing("/dev/ttyUSB0", false, false, ""),
        listing("/dev/ttyV0", false, true, "/dev/pts/4"),
        listing("/dev/ttyS9", true, false, ""),
    ];
    assert_eq!(
        list_ports_text(&ports),
        "/dev/ttyUSB0\t0\t0\t0\n/dev/ttyV0\t1\t1\t0\n/dev/ttyS9\t0\t0\t1"
    );
}

#[test]
fn list_text_of_no_ports_is_empty() {
    assert_eq!(list_ports_text(&Vec::new()), "");
}
