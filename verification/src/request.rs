use vstd::prelude::*;

verus! {

/// The data of one native connect call, byte-exact: every text field is a
/// null-terminated byte string with no embedded null byte. The display type,
/// scope, usage, comment and provider of the native resource descriptor stay
/// unset, so the operating system picks the network provider itself.
pub struct ConnectRequest {
    /// The local device name to bind, or nothing for a deviceless connection.
    pub local_device: Option<Vec<u8>>,
    /// The remote share path.
    pub remote_name: Vec<u8>,
    /// The user name, possibly domain-qualified.
    pub username: Vec<u8>,
    /// The password.
    pub password: Vec<u8>,
    /// The native resource type; always the disk type.
    pub resource_type: u32,
    /// The persistence and interactivity flags word.
    pub flags: u32,
}

/// The mathematical content of a [`ConnectRequest`].
#[verifier::ext_equal]
pub ghost struct ConnectRequestView {
    pub local_device: Option<Seq<u8>>,
    pub remote_name: Seq<u8>,
    pub username: Seq<u8>,
    pub password: Seq<u8>,
    pub resource_type: u32,
    pub flags: u32,
}

impl View for ConnectRequest {
    type V = ConnectRequestView;

    open spec fn view(&self) -> ConnectRequestView {
        ConnectRequestView {
            local_device: match self.local_device {
                Some(v) => Some(v@),
                None => None,
            },
            remote_name: self.remote_name@,
            username: self.username@,
            password: self.password@,
            resource_type: self.resource_type,
            flags: self.flags,
        }
    }
}

/// The data of one native disconnect call: the resource identifier to
/// disconnect (the local device name when mounted, the remote path when
/// deviceless), the profile-update flags word, and the force indicator in the
/// native boolean convention.
pub struct DisconnectRequest {
    /// The null-terminated identifier of the resource to disconnect.
    pub resource: Vec<u8>,
    /// The profile-update flags word.
    pub flags: u32,
    /// Whether to disconnect despite open files, as a native boolean.
    pub force: i32,
}

/// The mathematical content of a [`DisconnectRequest`].
#[verifier::ext_equal]
pub ghost struct DisconnectRequestView {
    pub resource: Seq<u8>,
    pub flags: u32,
    pub force: i32,
}

impl View for DisconnectRequest {
    type V = DisconnectRequestView;

    open spec fn view(&self) -> DisconnectRequestView {
        DisconnectRequestView { resource: self.resource@, flags: self.flags, force: self.force }
    }
}

} // verus!
