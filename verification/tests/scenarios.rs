//! End-to-end scenarios with the native call replaced by an injected status
//! code: the request is built by the library, the status a real Windows
//! machine would return is fed back through the status mapping.

use sambrs::{map_connect_status, map_disconnect_status, Error, SmbShare};

#[test]
fn mounted_round_trip_then_already_assigned() {
    let share = SmbShare::new(r"\\server\share", "user", "pass", Some('S'));

    // First connect: the request is valid and the platform reports success.
    let req = share.connect_request(false, false).unwrap();
    assert_eq!(req.local_device, Some(b"S:\0".to_vec()));
    assert_eq!(map_connect_status(0), Ok(()));

    // Second connect on the same mounted descriptor: the platform reports
    // that the drive letter is already bound.
    let req_again = share.connect_request(false, false).unwrap();
    assert_eq!(req_again.local_device, Some(b"S:\0".to_vec()));
    assert_eq!(map_connect_status(85), Err(Error::AlreadyAssigned));

    // Disconnect: success.
    let drop_req = share.disconnect_request(false, false).unwrap();
    assert_eq!(drop_req.resource, b"S:\0".to_vec());
    assert_eq!(map_disconnect_status(0), Ok(()));
}

#[test]
fn unreachable_remote_path_maps_to_bad_net_name() {
    let share = SmbShare::new(r"\\thisisnotashare.local\Share-Name", "user", "pass", None);
    let req = share.connect_request(false, false).unwrap();
    assert_eq!(req.local_device, None);
    // No provider recognizes the name: the platform returns the bad-net-name
    // status, which must surface as the typed error.
    assert_eq!(map_connect_status(67), Err(Error::BadNetName));
}

#[test]
fn wrong_password_non_interactive_maps_to_a_credential_error() {
    let share = SmbShare::new(r"\\server\share", "user", "wrong", None);
    let req = share.connect_request(false, false).unwrap();
    // Interactive prompting stays off.
    assert_eq!(req.flags & sambrs::CONNECT_INTERACTIVE, 0);
    // The platform reports either invalid-password or logon-failure; both
    // must come back as their typed errors.
    let invalid = map_connect_status(86).unwrap_err();
    let logon = map_connect_status(1326).unwrap_err();
    assert!(invalid == Error::InvalidPassword || invalid == Error::LogonFailure);
    assert!(logon == Error::InvalidPassword || logon == Error::LogonFailure);
    assert_eq!(invalid, Error::InvalidPassword);
    assert_eq!(logon, Error::LogonFailure);
}

#[test]
fn disconnect_twice_deviceless_stays_a_typed_error() {
    let share = SmbShare::new(r"\\server\share", "user", "pass", None);

    // First disconnect: the platform releases the connection.
    let req1 = share.disconnect_request(false, false).unwrap();
    assert_eq!(req1.resource, b"\\\\server\\share\0".to_vec());
    assert_eq!(map_disconnect_status(0), Ok(()));

    // Second disconnect on the same descriptor: the request is built the
    // same way again, and whatever status the platform returns surfaces as a
    // typed outcome, never a crash.
    let req2 = share.disconnect_request(false, false).unwrap();
    assert_eq!(req2.resource, req1.resource);
    assert_eq!(req2.flags, req1.flags);
    assert_eq!(req2.force, req1.force);
    assert_eq!(map_disconnect_status(2250), Err(Error::NotConnected));
}

#[test]
fn two_mount_letters_to_same_share_are_independent() {
    let share_one = SmbShare::new(r"\\server\share", "user", "pass", Some('S'));
    let share_two = SmbShare::new(r"\\server\share", "user", "pass", Some('T'));

    let req_one = share_one.connect_request(false, false).unwrap();
    let req_two = share_two.connect_request(false, false).unwrap();

    // Same remote share, distinct local devices: both connects can succeed.
    assert_eq!(req_one.remote_name, req_two.remote_name);
    assert_ne!(req_one.local_device, req_two.local_device);
    assert_eq!(map_connect_status(0), Ok(()));
    assert_eq!(map_connect_status(0), Ok(()));

    // Each disconnect addresses only its own device name.
    let drop_one = share_one.disconnect_request(false, false).unwrap();
    let drop_two = share_two.disconnect_request(false, false).unwrap();
    assert_eq!(drop_one.resource, b"S:\0".to_vec());
    assert_eq!(drop_two.resource, b"T:\0".to_vec());
    assert_ne!(drop_one.resource, drop_two.resource);
    assert_eq!(map_disconnect_status(0), Ok(()));
    assert_eq!(map_disconnect_status(0), Ok(()));
}
