use a653rs::parse::channel::PortName;

#[test]
fn long_port_name() {
    let port = "AAAAAAAAAAAAAAAAAAAAAAAAAAAAAAAAAAAAAA";
    let port = PortName::from_string(port);
    assert!(port.is_err());
}

#[test]
fn ascii_printable_name() {
    let port = "[AA!-=-14**\\";
    let port = PortName::from_string(port);
    assert!(port.is_ok());
}

#[test]
fn non_ascii_printable_name() {
    let port = "\u{7FFF}";
    let port = PortName::from_string(port);
    assert!(port.is_err());
}

#[test]
fn name_length_boundary() {
    // 32 bytes are accepted, 33 are not
    let max = "A".repeat(32);
    assert!(PortName::from_string(&max).is_ok());
    let over = "A".repeat(33);
    assert!(PortName::from_string(&over).is_err());
}

#[test]
fn control_characters_rejected() {
    assert!(PortName::from_string("tab\tname").is_err());
    assert!(PortName::from_string("nul\0name").is_err());
}

#[test]
fn port_name_keeps_its_characters() {
    let port = PortName::from_string("Ch1").unwrap();
    assert_eq!(port.as_str(), "Ch1");
}
