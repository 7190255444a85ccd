use sambrs::{
    connect_flags, disconnect_flags, native_bool, Error, SmbShare, BOOL_FALSE, BOOL_TRUE,
    CONNECT_INTERACTIVE, CONNECT_TEMPORARY, CONNECT_UPDATE_PROFILE, RESOURCETYPE_DISK,
};

#[test]
fn connect_request_carries_all_fields_nul_terminated() {
    let share = SmbShare::new(r"\\server\share", r"DOMAIN\user", "pass", Some('S'));
    let req = share.connect_request(false, false).unwrap();
    assert_eq!(req.local_device, Some(b"S:\0".to_vec()));
    assert_eq!(req.remote_name, b"\\\\server\\share\0".to_vec());
    assert_eq!(req.username, b"DOMAIN\\user\0".to_vec());
    assert_eq!(req.password, b"pass\0".to_vec());
    assert_eq!(req.resource_type, RESOURCETYPE_DISK);
    assert_eq!(req.flags, CONNECT_TEMPORARY);
}

#[test]
fn connect_request_deviceless_has_no_local_device() {
    let share = SmbShare::new(r"\\server\share", "user", "pass", None);
    let req = share.connect_request(false, false).unwrap();
    assert_eq!(req.local_device, None);
}

#[test]
fn connect_request_encodes_non_ascii_mount_letter() {
    let share = SmbShare::new(r"\\server\share", "user", "pass", Some('é'));
    let req = share.connect_request(false, false).unwrap();
    // 'é' is U+00E9, two UTF-8 bytes, then the colon and the terminator.
    assert_eq!(req.local_device, Some(vec![0xC3, 0xA9, b':', 0]));
}

#[test]
fn connect_flags_persist_needs_mount_point() {
    // persist with a mount point: update-profile.
    assert_eq!(connect_flags(true, true, false), CONNECT_UPDATE_PROFILE);
    // persist without a mount point is ignored: temporary.
    assert_eq!(connect_flags(false, true, false), CONNECT_TEMPORARY);
    // no persist: always temporary.
    assert_eq!(connect_flags(true, false, false), CONNECT_TEMPORARY);
    assert_eq!(connect_flags(false, false, false), CONNECT_TEMPORARY);
    // interactive adds its bit on top.
    assert_eq!(
        connect_flags(true, true, true),
        CONNECT_UPDATE_PROFILE | CONNECT_INTERACTIVE
    );
    assert_eq!(
        connect_flags(false, true, true),
        CONNECT_TEMPORARY | CONNECT_INTERACTIVE
    );
}

#[test]
fn connect_request_flags_ignore_persist_without_mount() {
    let deviceless = SmbShare::new(r"\\server\share", "user", "pass", None);
    let req = deviceless.connect_request(true, false).unwrap();
    assert_eq!(req.flags, CONNECT_TEMPORARY);

    let mounted = SmbShare::new(r"\\server\share", "user", "pass", Some('S'));
    let req = mounted.connect_request(true, false).unwrap();
    assert_eq!(req.flags, CONNECT_UPDATE_PROFILE);
}

#[test]
fn disconnect_flags_persist_needs_mount_point() {
    assert_eq!(disconnect_flags(true, true), CONNECT_UPDATE_PROFILE);
    assert_eq!(disconnect_flags(false, true), 0);
    assert_eq!(disconnect_flags(true, false), 0);
    assert_eq!(disconnect_flags(false, false), 0);
}

#[test]
fn disconnect_request_targets_device_when_mounted() {
    let share = SmbShare::new(r"\\server\share", "user", "pass", Some('T'));
    let req = share.disconnect_request(false, false).unwrap();
    assert_eq!(req.resource, b"T:\0".to_vec());
    assert_eq!(req.flags, 0);
    assert_eq!(req.force, BOOL_FALSE);
}

#[test]
fn disconnect_request_targets_remote_path_when_deviceless() {
    let share = SmbShare::new(r"\\server\share", "user", "pass", None);
    let req = share.disconnect_request(true, true).unwrap();
    assert_eq!(req.resource, b"\\\\server\\share\0".to_vec());
    // persist is ignored without a mount point.
    assert_eq!(req.flags, 0);
    assert_eq!(req.force, BOOL_TRUE);
}

#[test]
fn native_bool_follows_windows_convention() {
    assert_eq!(native_bool(true), 1);
    assert_eq!(native_bool(false), 0);
}

#[test]
fn connect_rejects_nul_in_share() {
    let share = SmbShare::new("\\\\ser\0ver\\share", "user", "pass", None);
    assert!(matches!(
        share.connect_request(false, false),
        Err(Error::TextEncodingFailure)
    ));
}

#[test]
fn connect_rejects_nul_in_username() {
    let share = SmbShare::new(r"\\server\share", "us\0er", "pass", None);
    assert!(matches!(
        share.connect_request(false, false),
        Err(Error::TextEncodingFailure)
    ));
}

#[test]
fn connect_rejects_nul_in_password() {
    let share = SmbShare::new(r"\\server\share", "user", "pa\0ss", Some('S'));
    assert!(matches!(
        share.connect_request(true, true),
        Err(Error::TextEncodingFailure)
    ));
}

#[test]
fn connect_rejects_nul_mount_letter() {
    let share = SmbShare::new(r"\\server\share", "user", "pass", Some('\0'));
    assert!(matches!(
        share.connect_request(false, false),
        Err(Error::TextEncodingFailure)
    ));
}

#[test]
fn disconnect_rejects_nul_in_share() {
    let share = SmbShare::new("\\\\ser\0ver\\share", "user", "pass", None);
    assert!(matches!(
        share.disconnect_request(false, false),
        Err(Error::TextEncodingFailure)
    ));
}

#[test]
fn disconnect_rejects_nul_mount_letter() {
    let share = SmbShare::new(r"\\server\share", "user", "pass", Some('\0'));
    assert!(matches!(
        share.disconnect_request(false, false),
        Err(Error::TextEncodingFailure)
    ));
}

#[test]
fn disconnect_ignores_credentials_it_does_not_convert() {
    // Disconnect never hands credentials to the native call, so a null byte
    // there does not stop it.
    let share = SmbShare::new(r"\\server\share", "us\0er", "pa\0ss", Some('S'));
    let req = share.disconnect_request(false, false).unwrap();
    assert_eq!(req.resource, b"S:\0".to_vec());
}
