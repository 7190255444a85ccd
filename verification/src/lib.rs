//! Connect to and disconnect from an SMB network share on Windows.
//!
//! A caller builds an [`SmbShare`] descriptor (remote path, credentials,
//! optional local mount letter) and derives from it the two native requests
//! that the Windows network-resource facility takes: one to add a connection
//! and one to cancel it. The integer status code that the facility returns is
//! mapped back into the closed [`Error`] enumeration.
//!
//! The library itself performs no I/O: it builds byte-exact requests and
//! interprets status codes, so an unverified shell around it only has to pass
//! the request fields to `WNetAddConnection2A` / `WNetCancelConnection2A`
//! and hand the returned status back.

use vstd::prelude::*;
use vstd::string::StrSliceExecFns;

mod encoding;
mod error;
mod native;
mod request;
mod status;

pub use encoding::{
    device_name_bytes, device_name_chars, encode_char, has_nul, lemma_device_name_injective,
    lemma_nul_byte_iff_nul_char, nul_terminate, nul_terminated,
};
pub use error::Error;
pub use native::{
    BOOL_FALSE, BOOL_TRUE, CONNECT_INTERACTIVE, CONNECT_TEMPORARY, CONNECT_UPDATE_PROFILE,
    RESOURCETYPE_DISK, connect_flags, disconnect_flags, lemma_connect_flags_persist,
    lemma_disconnect_flags_persist, native_bool, spec_connect_flags, spec_disconnect_flags,
    spec_native_bool,
};
pub use request::{ConnectRequest, ConnectRequestView, DisconnectRequest, DisconnectRequestView};
pub use status::{
    ERROR_ACCESS_DENIED, ERROR_ALREADY_ASSIGNED, ERROR_BAD_DEVICE, ERROR_BAD_DEV_TYPE,
    ERROR_BAD_NET_NAME, ERROR_BAD_PROFILE, ERROR_BAD_PROVIDER, ERROR_BAD_USERNAME, ERROR_BUSY,
    ERROR_CANCELLED, ERROR_CANNOT_OPEN_PROFILE, ERROR_DEVICE_ALREADY_REMEMBERED,
    ERROR_DEVICE_IN_USE, ERROR_EXTENDED_ERROR, ERROR_INVALID_ADDRESS, ERROR_INVALID_PARAMETER,
    ERROR_INVALID_PASSWORD, ERROR_LOGON_FAILURE, ERROR_NOT_CONNECTED, ERROR_NO_NETWORK,
    ERROR_NO_NET_OR_BAD_PATH, ERROR_OPEN_FILES, NO_ERROR, documented_connect_status,
    documented_disconnect_status, lemma_connect_mapping_total, lemma_disconnect_mapping_total,
    map_connect_status, map_disconnect_status, spec_connect_outcome, spec_disconnect_outcome,
};

verus! {

/// An immutable descriptor of a remote SMB share: the UNC remote path, the
/// credentials, and an optional local drive letter to mount it on. Absence of
/// the letter means a deviceless connection, addressed later by its remote
/// path.
pub struct SmbShare {
    share: String,
    username: String,
    password: String,
    mount_on: Option<char>,
}

/// The mathematical content of an [`SmbShare`]: its text fields as character
/// sequences and the optional mount letter.
#[verifier::ext_equal]
pub ghost struct ShareView {
    pub share: Seq<char>,
    pub username: Seq<char>,
    pub password: Seq<char>,
    pub mount_on: Option<char>,
}

impl View for SmbShare {
    type V = ShareView;

    closed spec fn view(&self) -> ShareView {
        ShareView {
            share: self.share@,
            username: self.username@,
            password: self.password@,
            mount_on: self.mount_on,
        }
    }
}

impl ShareView {
    /// True when every text field the connect call takes — remote path, user
    /// name, password, and the derived local device name if any — encodes
    /// without an embedded null byte.
    pub open spec fn connect_encodable(self) -> bool {
        &&& !encoding::has_nul(vstd::utf8::encode_utf8(self.share))
        &&& !encoding::has_nul(vstd::utf8::encode_utf8(self.username))
        &&& !encoding::has_nul(vstd::utf8::encode_utf8(self.password))
        &&& (self.mount_on matches Some(c) ==> !encoding::has_nul(
            vstd::utf8::encode_utf8(encoding::device_name_chars(c)),
        ))
    }

    /// True when every text field the disconnect call converts — the remote
    /// path, and the derived local device name if any — encodes without an
    /// embedded null byte.
    pub open spec fn disconnect_encodable(self) -> bool {
        &&& !encoding::has_nul(vstd::utf8::encode_utf8(self.share))
        &&& (self.mount_on matches Some(c) ==> !encoding::has_nul(
            vstd::utf8::encode_utf8(encoding::device_name_chars(c)),
        ))
    }

    /// The native connect request derived from this descriptor: the device
    /// name `<letter>:` when mounted and nothing when deviceless, each text
    /// field null-terminated, the disk resource type, and the flags word of
    /// [`spec_connect_flags`].
    pub open spec fn spec_connect_request(self, persist: bool, interactive: bool) -> ConnectRequestView {
        ConnectRequestView {
            local_device: match self.mount_on {
                Some(c) => Some(encoding::nul_terminated(encoding::device_name_chars(c))),
                None => None,
            },
            remote_name: encoding::nul_terminated(self.share),
            username: encoding::nul_terminated(self.username),
            password: encoding::nul_terminated(self.password),
            resource_type: RESOURCETYPE_DISK,
            flags: spec_connect_flags(self.mount_on is Some, persist, interactive),
        }
    }

    /// The native disconnect request derived from this descriptor: the device
    /// name addresses a mounted connection, the remote path a deviceless one,
    /// with the flags word of [`spec_disconnect_flags`] and the force
    /// indicator as a native boolean.
    pub open spec fn spec_disconnect_request(self, persist: bool, force: bool) -> DisconnectRequestView {
        DisconnectRequestView {
            resource: match self.mount_on {
                Some(c) => encoding::nul_terminated(encoding::device_name_chars(c)),
                None => encoding::nul_terminated(self.share),
            },
            flags: spec_disconnect_flags(self.mount_on is Some, persist),
            force: spec_native_bool(force),
        }
    }
}

/// Two descriptors for the same remote share on distinct mount letters are
/// independent: their connect requests agree on the remote name but bind
/// distinct local devices, and their disconnect requests address distinct
/// resources, so each operation touches only its own letter.
pub proof fn lemma_distinct_mount_letters_independent(
    a: ShareView,
    b: ShareView,
    c1: char,
    c2: char,
    persist: bool,
    interactive: bool,
    force: bool,
)
    requires
        a.share == b.share,
        a.mount_on == Some(c1),
        b.mount_on == Some(c2),
        c1 != c2,
    ensures
        a.spec_connect_request(persist, interactive).remote_name == b.spec_connect_request(
            persist,
            interactive,
        ).remote_name,
        a.spec_connect_request(persist, interactive).local_device != b.spec_connect_request(
            persist,
            interactive,
        ).local_device,
        a.spec_disconnect_request(persist, force).resource != b.spec_disconnect_request(
            persist,
            force,
        ).resource,
{
    encoding::lemma_device_name_injective(c1, c2);
}

impl SmbShare {
    /// Create an `SmbShare` descriptor to connect to.
    ///
    /// Optionally give `mount_on` to bind the share to a local drive letter;
    /// otherwise the connection is deviceless. No validation and no network
    /// activity happens here.
    pub fn new(share: &str, username: &str, password: &str, mount_on: Option<char>) -> (r: Self)
        ensures
            r@ == (ShareView { share: share@, username: username@, password: password@, mount_on }),
    {
        Self { share: share.to_owned(), username: username.to_owned(), password: password.to_owned(), mount_on }
    }

    /// Derive the native connect request from this descriptor and the two
    /// connection options.
    ///
    /// The request is exactly [`ShareView::spec_connect_request`] whenever
    /// every text field is free of embedded null bytes; otherwise the call
    /// fails with [`Error::TextEncodingFailure`] and nothing else is built —
    /// the guard runs before any native work can happen.
    pub fn connect_request(&self, persist: bool, interactive: bool) -> (r: Result<ConnectRequest, Error>)
        ensures
            self@.connect_encodable() ==> (r matches Ok(req) && req@ == self@.spec_connect_request(
                persist,
                interactive,
            )),
            !self@.connect_encodable() ==> r == Err::<ConnectRequest, Error>(
                Error::TextEncodingFailure,
            ),
    {
        let local_device: Option<Vec<u8>> = match self.mount_on {
            Some(c) => {
                match encoding::nul_terminate(encoding::device_name_bytes(c)) {
                    Some(v) => Some(v),
                    None => {
                        return Err(Error::TextEncodingFailure);
                    },
                }
            },
            None => None,
        };
        let remote_name = match encoding::nul_terminate(self.share.as_str().as_bytes_vec()) {
            Some(v) => v,
            None => {
                return Err(Error::TextEncodingFailure);
            },
        };
        let username = match encoding::nul_terminate(self.username.as_str().as_bytes_vec()) {
            Some(v) => v,
            None => {
                return Err(Error::TextEncodingFailure);
            },
        };
        let password = match encoding::nul_terminate(self.password.as_str().as_bytes_vec()) {
            Some(v) => v,
            None => {
                return Err(Error::TextEncodingFailure);
            },
        };
        let flags = connect_flags(self.mount_on.is_some(), persist, interactive);
        let req = ConnectRequest {
            local_device,
            remote_name,
            username,
            password,
            resource_type: RESOURCETYPE_DISK,
            flags,
        };
        proof {
            assert(req@ =~= self@.spec_connect_request(persist, interactive));
        }
        Ok(req)
    }

    /// Derive the native disconnect request from this descriptor and the two
    /// disconnect options.
    ///
    /// The request is exactly [`ShareView::spec_disconnect_request`] whenever
    /// the remote path and the derived device name are free of embedded null
    /// bytes; otherwise the call fails with [`Error::TextEncodingFailure`]
    /// before any native work can happen.
    pub fn disconnect_request(&self, persist: bool, force: bool) -> (r: Result<DisconnectRequest, Error>)
        ensures
            self@.disconnect_encodable() ==> (r matches Ok(req) && req@
                == self@.spec_disconnect_request(persist, force)),
            !self@.disconnect_encodable() ==> r == Err::<DisconnectRequest, Error>(
                Error::TextEncodingFailure,
            ),
    {
        let local_device: Option<Vec<u8>> = match self.mount_on {
            Some(c) => {
                match encoding::nul_terminate(encoding::device_name_bytes(c)) {
                    Some(v) => Some(v),
                    None => {
                        return Err(Error::TextEncodingFailure);
                    },
                }
            },
            None => None,
        };
        let share_bytes = match encoding::nul_terminate(self.share.as_str().as_bytes_vec()) {
            Some(v) => v,
            None => {
                return Err(Error::TextEncodingFailure);
            },
        };
        let resource = match local_device {
            Some(v) => v,
            None => share_bytes,
        };
        let flags = disconnect_flags(self.mount_on.is_some(), persist);
        let force_native = native_bool(force);
        let req = DisconnectRequest { resource, flags, force: force_native };
        proof {
            assert(req@ =~= self@.spec_disconnect_request(persist, force));
        }
        Ok(req)
    }
}

} // verus!
