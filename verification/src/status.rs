use vstd::prelude::*;

use crate::error::Error;

verus! {

// Status codes the Windows network-resource facility returns, with the
// values the Windows API defines for them.

/// The operation succeeded.
pub const NO_ERROR: u32 = 0;

/// The caller does not have access to the network resource.
pub const ERROR_ACCESS_DENIED: u32 = 5;

/// The local device is already connected to a network resource.
pub const ERROR_ALREADY_ASSIGNED: u32 = 85;

/// The type of local device and the type of network resource do not match.
pub const ERROR_BAD_DEV_TYPE: u32 = 66;

/// The specified local device name is not valid or not redirectable.
pub const ERROR_BAD_DEVICE: u32 = 1200;

/// The remote name is not acceptable to any network provider.
pub const ERROR_BAD_NET_NAME: u32 = 67;

/// The user profile is in an incorrect format.
pub const ERROR_BAD_PROFILE: u32 = 1206;

/// The specified network provider name is not valid.
pub const ERROR_BAD_PROVIDER: u32 = 1204;

/// The specified user name is not valid.
pub const ERROR_BAD_USERNAME: u32 = 2202;

/// The router or provider is busy, possibly initializing.
pub const ERROR_BUSY: u32 = 170;

/// The attempt to make the connection was cancelled by the user.
pub const ERROR_CANCELLED: u32 = 1223;

/// The system is unable to open the user profile.
pub const ERROR_CANNOT_OPEN_PROFILE: u32 = 1205;

/// The local device name has a remembered connection to another resource.
pub const ERROR_DEVICE_ALREADY_REMEMBERED: u32 = 1202;

/// The device is in use by an active process.
pub const ERROR_DEVICE_IN_USE: u32 = 2404;

/// A provider-specific error occurred.
pub const ERROR_EXTENDED_ERROR: u32 = 1208;

/// An attempt was made to access an invalid address.
pub const ERROR_INVALID_ADDRESS: u32 = 487;

/// A parameter is incorrect.
pub const ERROR_INVALID_PARAMETER: u32 = 87;

/// The password is invalid and interactive prompting is disabled.
pub const ERROR_INVALID_PASSWORD: u32 = 86;

/// Logon failure because of an unknown user name or a bad password.
pub const ERROR_LOGON_FAILURE: u32 = 1326;

/// No network provider accepted the given network path.
pub const ERROR_NO_NET_OR_BAD_PATH: u32 = 1203;

/// The network is unavailable.
pub const ERROR_NO_NETWORK: u32 = 1222;

/// The target is not a redirected device or not currently connected.
pub const ERROR_NOT_CONNECTED: u32 = 2250;

/// There are open files and the disconnect was not forced.
pub const ERROR_OPEN_FILES: u32 = 2401;

/// The total mapping from a connect status code to its typed outcome: the
/// success code maps to `Ok`, every documented failure code to its own
/// variant, and every other code to `Error::Other`.
pub open spec fn spec_connect_outcome(status: u32) -> Result<(), Error> {
    if status == NO_ERROR {
        Ok(())
    } else if status == ERROR_ACCESS_DENIED {
        Err(Error::AccessDenied)
    } else if status == ERROR_ALREADY_ASSIGNED {
        Err(Error::AlreadyAssigned)
    } else if status == ERROR_BAD_DEV_TYPE {
        Err(Error::BadDevType)
    } else if status == ERROR_BAD_DEVICE {
        Err(Error::BadDevice)
    } else if status == ERROR_BAD_NET_NAME {
        Err(Error::BadNetName)
    } else if status == ERROR_BAD_PROFILE {
        Err(Error::BadProfile)
    } else if status == ERROR_BAD_PROVIDER {
        Err(Error::BadProvider)
    } else if status == ERROR_BAD_USERNAME {
        Err(Error::BadUsername)
    } else if status == ERROR_BUSY {
        Err(Error::Busy)
    } else if status == ERROR_CANCELLED {
        Err(Error::Cancelled)
    } else if status == ERROR_CANNOT_OPEN_PROFILE {
        Err(Error::CannotOpenProfile)
    } else if status == ERROR_DEVICE_ALREADY_REMEMBERED {
        Err(Error::DeviceAlreadyRemembered)
    } else if status == ERROR_EXTENDED_ERROR {
        Err(Error::ExtendedError)
    } else if status == ERROR_INVALID_ADDRESS {
        Err(Error::InvalidAddress)
    } else if status == ERROR_INVALID_PARAMETER {
        Err(Error::InvalidParameter)
    } else if status == ERROR_INVALID_PASSWORD {
        Err(Error::InvalidPassword)
    } else if status == ERROR_LOGON_FAILURE {
        Err(Error::LogonFailure)
    } else if status == ERROR_NO_NET_OR_BAD_PATH {
        Err(Error::NoNetOrBadPath)
    } else if status == ERROR_NO_NETWORK {
        Err(Error::NoNetwork)
    } else {
        Err(Error::Other)
    }
}

/// The total mapping from a disconnect status code to its typed outcome,
/// over the smaller set of codes the cancel call documents.
pub open spec fn spec_disconnect_outcome(status: u32) -> Result<(), Error> {
    if status == NO_ERROR {
        Ok(())
    } else if status == ERROR_BAD_PROFILE {
        Err(Error::BadProfile)
    } else if status == ERROR_CANNOT_OPEN_PROFILE {
        Err(Error::CannotOpenProfile)
    } else if status == ERROR_DEVICE_IN_USE {
        Err(Error::DeviceInUse)
    } else if status == ERROR_EXTENDED_ERROR {
        Err(Error::ExtendedError)
    } else if status == ERROR_NOT_CONNECTED {
        Err(Error::NotConnected)
    } else if status == ERROR_OPEN_FILES {
        Err(Error::OpenFiles)
    } else {
        Err(Error::Other)
    }
}

/// Map a status code returned by the native connect call to its typed
/// outcome.
pub fn map_connect_status(status: u32) -> (r: Result<(), Error>)
    ensures
        r == spec_connect_outcome(status),
{
    if status == NO_ERROR {
        Ok(())
    } else if status == ERROR_ACCESS_DENIED {
        Err(Error::AccessDenied)
    } else if status == ERROR_ALREADY_ASSIGNED {
        Err(Error::AlreadyAssigned)
    } else if status == ERROR_BAD_DEV_TYPE {
        Err(Error::BadDevType)
    } else if status == ERROR_BAD_DEVICE {
        Err(Error::BadDevice)
    } else if status == ERROR_BAD_NET_NAME {
        Err(Error::BadNetName)
    } else if status == ERROR_BAD_PROFILE {
        Err(Error::BadProfile)
    } else if status == ERROR_BAD_PROVIDER {
        Err(Error::BadProvider)
    } else if status == ERROR_BAD_USERNAME {
        Err(Error::BadUsername)
    } else if status == ERROR_BUSY {
        Err(Error::Busy)
    } else if status == ERROR_CANCELLED {
        Err(Error::Cancelled)
    } else if status == ERROR_CANNOT_OPEN_PROFILE {
        Err(Error::CannotOpenProfile)
    } else if status == ERROR_DEVICE_ALREADY_REMEMBERED {
        Err(Error::DeviceAlreadyRemembered)
    } else if status == ERROR_EXTENDED_ERROR {
        Err(Error::ExtendedError)
    } else if status == ERROR_INVALID_ADDRESS {
        Err(Error::InvalidAddress)
    } else if status == ERROR_INVALID_PARAMETER {
        Err(Error::InvalidParameter)
    } else if status == ERROR_INVALID_PASSWORD {
        Err(Error::InvalidPassword)
    } else if status == ERROR_LOGON_FAILURE {
        Err(Error::LogonFailure)
    } else if status == ERROR_NO_NET_OR_BAD_PATH {
        Err(Error::NoNetOrBadPath)
    } else if status == ERROR_NO_NETWORK {
        Err(Error::NoNetwork)
    } else {
        Err(Error::Other)
    }
}

/// Map a status code returned by the native disconnect call to its typed
/// outcome.
pub fn map_disconnect_status(status: u32) -> (r: Result<(), Error>)
    ensures
        r == spec_disconnect_outcome(status),
{
    if status == NO_ERROR {
        Ok(())
    } else if status == ERROR_BAD_PROFILE {
        Err(Error::BadProfile)
    } else if status == ERROR_CANNOT_OPEN_PROFILE {
        Err(Error::CannotOpenProfile)
    } else if status == ERROR_DEVICE_IN_USE {
        Err(Error::DeviceInUse)
    } else if status == ERROR_EXTENDED_ERROR {
        Err(Error::ExtendedError)
    } else if status == ERROR_NOT_CONNECTED {
        Err(Error::NotConnected)
    } else if status == ERROR_OPEN_FILES {
        Err(Error::OpenFiles)
    } else {
        Err(Error::Other)
    }
}

/// True of the status codes the connect mapping documents by name.
pub open spec fn documented_connect_status(status: u32) -> bool {
    ||| status == NO_ERROR
    ||| status == ERROR_ACCESS_DENIED
    ||| status == ERROR_ALREADY_ASSIGNED
    ||| status == ERROR_BAD_DEV_TYPE
    ||| status == ERROR_BAD_DEVICE
    ||| status == ERROR_BAD_NET_NAME
    ||| status == ERROR_BAD_PROFILE
    ||| status == ERROR_BAD_PROVIDER
    ||| status == ERROR_BAD_USERNAME
    ||| status == ERROR_BUSY
    ||| status == ERROR_CANCELLED
    ||| status == ERROR_CANNOT_OPEN_PROFILE
    ||| status == ERROR_DEVICE_ALREADY_REMEMBERED
    ||| status == ERROR_EXTENDED_ERROR
    ||| status == ERROR_INVALID_ADDRESS
    ||| status == ERROR_INVALID_PARAMETER
    ||| status == ERROR_INVALID_PASSWORD
    ||| status == ERROR_LOGON_FAILURE
    ||| status == ERROR_NO_NET_OR_BAD_PATH
    ||| status == ERROR_NO_NETWORK
}

/// True of the status codes the disconnect mapping documents by name.
pub open spec fn documented_disconnect_status(status: u32) -> bool {
    ||| status == NO_ERROR
    ||| status == ERROR_BAD_PROFILE
    ||| status == ERROR_CANNOT_OPEN_PROFILE
    ||| status == ERROR_DEVICE_IN_USE
    ||| status == ERROR_EXTENDED_ERROR
    ||| status == ERROR_NOT_CONNECTED
    ||| status == ERROR_OPEN_FILES
}

/// The connect mapping is total and deterministic: being a function, it gives
/// every status code exactly one outcome, and the same code always the same
/// outcome. Success comes exactly from the success code, each documented
/// failure code has an outcome of its own, never the catch-all, and every
/// undocumented code falls to the catch-all.
pub proof fn lemma_connect_mapping_total(s1: u32, s2: u32)
    ensures
        spec_connect_outcome(s1) is Ok <==> s1 == NO_ERROR,
        !documented_connect_status(s1) ==> spec_connect_outcome(s1) == Err::<(), Error>(Error::Other),
        documented_connect_status(s1) ==> spec_connect_outcome(s1) != Err::<(), Error>(Error::Other),
        documented_connect_status(s1) && documented_connect_status(s2) && s1 != s2
            ==> spec_connect_outcome(s1) != spec_connect_outcome(s2),
{
}

/// The disconnect mapping is total and deterministic in the same way as the
/// connect mapping, over its own smaller set of documented codes.
pub proof fn lemma_disconnect_mapping_total(s1: u32, s2: u32)
    ensures
        spec_disconnect_outcome(s1) is Ok <==> s1 == NO_ERROR,
        !documented_disconnect_status(s1) ==> spec_disconnect_outcome(s1) == Err::<(), Error>(Error::Other),
        documented_disconnect_status(s1) ==> spec_disconnect_outcome(s1) != Err::<(), Error>(Error::Other),
        documented_disconnect_status(s1) && documented_disconnect_status(s2) && s1 != s2
            ==> spec_disconnect_outcome(s1) != spec_disconnect_outcome(s2),
{
}

} // verus!
