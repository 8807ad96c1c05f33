use vexide_runtime::link;
use vexide_runtime::link::{
    available_write_bytes, device_type, flush, is_linked, open, read, request_len, unread_bytes,
    validate_type, IoErrorKind, LinkError, LinkType, OpenRequest, PortError, SmartDeviceType,
};

#[test]
fn link_roles_have_their_codes() {
    assert_eq!(LinkType::Worker.code(), 0);
    assert_eq!(LinkType::Manager.code(), 1);
}

#[test]
fn open_needs_a_radio_on_the_port() {
    assert_eq!(
        open(None, "643A", LinkType::Manager),
        Err(LinkError::Port { source: PortError::Disconnected })
    );
    assert_eq!(
        open(Some(SmartDeviceType::Motor), "643A", LinkType::Manager),
        Err(LinkError::Port { source: PortError::IncorrectDevice })
    );
    assert_eq!(
        open(Some(SmartDeviceType::Radio), "643A", LinkType::Manager),
        Ok(OpenRequest { role: 1, exclusive: true })
    );
    assert_eq!(
        open(Some(SmartDeviceType::Radio), "", LinkType::Worker),
        Ok(OpenRequest { role: 0, exclusive: true })
    );
}

#[test]
fn open_refuses_a_name_with_a_nul_byte() {
    assert_eq!(
        open(Some(SmartDeviceType::Radio), "64\03A", LinkType::Worker),
        Err(LinkError::NonTerminatingNul)
    );
    assert_eq!(
        open(Some(SmartDeviceType::Radio), "643A\0", LinkType::Worker),
        Err(LinkError::NonTerminatingNul)
    );
    assert_eq!(
        open(None, "64\03A", LinkType::Worker),
        Err(LinkError::Port { source: PortError::Disconnected })
    );
}

#[test]
fn port_check_compares_device_kinds() {
    assert_eq!(validate_type(Some(SmartDeviceType::Radio), SmartDeviceType::Radio), Ok(()));
    assert_eq!(
        validate_type(Some(SmartDeviceType::Imu), SmartDeviceType::Radio),
        Err(PortError::IncorrectDevice)
    );
    assert_eq!(validate_type(None, SmartDeviceType::Radio), Err(PortError::Disconnected));
    assert_eq!(
        validate_type(Some(SmartDeviceType::Other(16)), SmartDeviceType::Radio),
        Err(PortError::IncorrectDevice)
    );
    assert_eq!(device_type(), SmartDeviceType::GenericSerial);
}

#[test]
fn buffer_counts_pass_through() {
    assert_eq!(unread_bytes(Ok(()), 12), Ok(12));
    assert_eq!(
        unread_bytes(Err(PortError::Disconnected), 12),
        Err(LinkError::Port { source: PortError::Disconnected })
    );
    assert_eq!(available_write_bytes(Ok(()), 512), Ok(512));
    assert_eq!(available_write_bytes(Ok(()), 0), Ok(0));
    assert_eq!(available_write_bytes(Ok(()), -1), Err(LinkError::ReadFailed));
    assert_eq!(
        available_write_bytes(Err(PortError::IncorrectDevice), -1),
        Err(LinkError::Port { source: PortError::IncorrectDevice })
    );
    assert_eq!(is_linked(Ok(()), true), Ok(true));
    assert_eq!(is_linked(Ok(()), false), Ok(false));
    assert_eq!(
        is_linked(Err(PortError::Disconnected), true),
        Err(LinkError::Port { source: PortError::Disconnected })
    );
}

#[test]
fn read_reports_what_the_radio_answered() {
    assert_eq!(read(Ok(true), 7).unwrap(), 7);
    assert_eq!(read(Ok(true), 0).unwrap(), 0);
    let failed = read(Ok(true), -1).unwrap_err();
    assert_eq!(failed.kind, IoErrorKind::InvalidData);
    assert_eq!(failed.message, "Internal read error occurred.");
}

#[test]
fn write_reports_what_the_radio_answered() {
    assert_eq!(link::write(Ok(true), 64).unwrap(), 64);
    let failed = link::write(Ok(true), -1).unwrap_err();
    assert_eq!(failed.kind, IoErrorKind::Other);
    assert_eq!(failed.message, "Internal write error occurred.");
}

#[test]
fn transfers_need_a_link() {
    let unlinked = read(Ok(false), 7).unwrap_err();
    assert_eq!(unlinked.kind, IoErrorKind::NotConnected);
    assert_eq!(unlinked.message, "Radio is not linked!");
    let missing = link::write(Err(PortError::Disconnected), 7).unwrap_err();
    assert_eq!(missing.kind, IoErrorKind::AddrNotAvailable);
    assert_eq!(missing.message, "Port does not exist.");
    let taken = flush(Err(PortError::IncorrectDevice)).unwrap_err();
    assert_eq!(taken.kind, IoErrorKind::AddrInUse);
    assert_eq!(taken.message, "Port is in use as another device.");
    assert_eq!(flush(Ok(false)).unwrap_err().kind, IoErrorKind::NotConnected);
    assert!(flush(Ok(true)).is_ok());
}

#[test]
fn request_length_keeps_the_low_sixteen_bits() {
    assert_eq!(request_len(0), 0);
    assert_eq!(request_len(512), 512);
    assert_eq!(request_len(65_535), 65_535);
    assert_eq!(request_len(65_536), 0);
    assert_eq!(request_len(65_541), 5);
}
