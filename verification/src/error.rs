use vstd::prelude::*;

verus! {

/// The closed set of failure reasons for connect and disconnect.
///
/// `TextEncodingFailure` is raised locally, before any native call, when a
/// text field holds an embedded null byte. Every other variant stands for
/// exactly one Windows status code returned by the network-resource
/// facility; `Other` is the catch-all for any status code not otherwise
/// enumerated.
#[derive(Clone, Copy, Debug, PartialEq, Eq, Structural)]
pub enum Error {
    /// A text field could not be turned into a null-terminated byte string
    /// because it holds an embedded null byte.
    TextEncodingFailure,
    /// The caller does not have access to the network resource.
    AccessDenied,
    /// The local device is already connected to a network resource.
    AlreadyAssigned,
    /// The type of local device and the type of network resource do not match.
    BadDevType,
    /// The specified local device name is not valid or not redirectable.
    BadDevice,
    /// The remote name is not acceptable to any network provider.
    BadNetName,
    /// The user profile is in an incorrect format.
    BadProfile,
    /// The specified network provider name is not valid.
    BadProvider,
    /// The specified user name is not valid.
    BadUsername,
    /// The router or provider is busy, possibly initializing; the caller may retry.
    Busy,
    /// The attempt to make the connection was cancelled by the user.
    Cancelled,
    /// The system is unable to open the user profile for persistence bookkeeping.
    CannotOpenProfile,
    /// The local device name has a remembered connection to another network resource.
    DeviceAlreadyRemembered,
    /// A provider-specific error occurred; a secondary provider query gives details.
    ExtendedError,
    /// A redirect was requested without the required local name.
    InvalidAddress,
    /// A parameter of the native request is incorrect.
    InvalidParameter,
    /// The password is invalid and interactive prompting is disabled.
    InvalidPassword,
    /// Logon failure because of an unknown user name or a bad password.
    LogonFailure,
    /// No network provider accepted the given network path.
    NoNetOrBadPath,
    /// The network is unavailable.
    NoNetwork,
    /// The device is in use by an active process and cannot be disconnected.
    DeviceInUse,
    /// The target is not a redirected device or not currently connected.
    NotConnected,
    /// There are open files and the disconnect was not forced.
    OpenFiles,
    /// Any status code not otherwise enumerated.
    Other,
}

} // verus!
