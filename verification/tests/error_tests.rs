use btmgmt::error::Error;

#[test]
fn status_zero_is_no_error() {
    assert_eq!(Error::from_status(0x00), None);
}

#[test]
fn named_statuses_map_to_their_kind() {
    let table = [
        (0x01u8, Error::UnknownCommand),
        (0x02, Error::NotConnected),
        (0x03, Error::Failed),
        (0x04, Error::ConnectFailed),
        (0x05, Error::AuthenticationFailed),
        (0x06, Error::NotPaired),
        (0x07, Error::NoResources),
        (0x08, Error::Timeout),
        (0x09, Error::AlreadyConnected),
        (0x0A, Error::Busy),
        (0x0B, Error::Rejected),
        (0x0C, Error::NotSupported),
        (0x0D, Error::InvalidParameters),
        (0x0E, Error::Disconnected),
        (0x0F, Error::NotPowered),
        (0x10, Error::Canceled),
        (0x11, Error::InvalidIndex),
        (0x12, Error::RFKilled),
        (0x13, Error::AlreadyPaired),
        (0x14, Error::PermissionDenied),
    ];
    for (status, kind) in table {
        assert_eq!(Error::from_status(status), Some(kind));
    }
}

#[test]
fn every_other_status_is_unknown() {
    for status in 0x15..=0xFFu8 {
        assert_eq!(Error::from_status(status), Some(Error::UnknownError));
    }
}

#[test]
fn no_status_gives_a_local_kind() {
    for status in 0..=255u8 {
        let kind = Error::from_status(status);
        assert_ne!(kind, Some(Error::SocketError));
        assert_ne!(kind, Some(Error::BindError));
        assert_ne!(kind, Some(Error::NoResponse));
    }
}

#[test]
fn errors_print_their_name() {
    assert_eq!(Error::SocketError.to_string(), "SocketError");
    assert_eq!(Error::BindError.to_string(), "BindError");
    assert_eq!(Error::NoResponse.to_string(), "NoResponse");
    assert_eq!(Error::Timeout.to_string(), "Timeout");
    assert_eq!(Error::RFKilled.to_string(), "RFKilled");
    assert_eq!(Error::UnknownError.to_string(), "UnknownError");
    assert_eq!(Error::PermissionDenied.as_str(), "PermissionDenied");
}

#[test]
fn errors_print_as_they_debug() {
    for status in 1..=0x15u8 {
        let kind = Error::from_status(status).unwrap();
        assert_eq!(kind.to_string(), format!("{:?}", kind));
    }
    for kind in [Error::SocketError, Error::BindError, Error::NoResponse] {
        assert_eq!(kind.to_string(), format!("{:?}", kind));
    }
}

#[test]
fn errors_describe_themselves() {
    assert_eq!(Error::SocketError.description(), "Error opening socket");
    assert_eq!(Error::BindError.description(), "Error binding to a socket");
    assert_eq!(Error::NoResponse.description(), "Response has not been stored");
    assert_eq!(Error::UnknownCommand.description(), "Unknown command");
    assert_eq!(Error::NotConnected.description(), "Not connected");
    assert_eq!(Error::Failed.description(), "Failed");
    assert_eq!(Error::ConnectFailed.description(), "Connect failed");
    assert_eq!(Error::AuthenticationFailed.description(), "Authentication failed");
    assert_eq!(Error::NotPaired.description(), "Not paired");
    assert_eq!(Error::NoResources.description(), "No resources");
    assert_eq!(Error::Timeout.description(), "Timeout");
    assert_eq!(Error::AlreadyConnected.description(), "Already connected");
    assert_eq!(Error::Busy.description(), "Busy");
    assert_eq!(Error::Rejected.description(), "Rejected");
    assert_eq!(Error::NotSupported.description(), "Not supported");
    assert_eq!(Error::InvalidParameters.description(), "Invalid parameters");
    assert_eq!(Error::Disconnected.description(), "Disconnected");
    assert_eq!(Error::NotPowered.description(), "Not powered");
    assert_eq!(Error::Canceled.description(), "Canceled");
    assert_eq!(Error::InvalidIndex.description(), "Invalid index");
    assert_eq!(Error::RFKilled.description(), "RF killed");
    assert_eq!(Error::AlreadyPaired.description(), "Already paired");
    assert_eq!(Error::PermissionDenied.description(), "Permission denied");
    assert_eq!(Error::UnknownError.description(), "Unknown error");
}
