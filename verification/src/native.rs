use vstd::prelude::*;

verus! {

// Flag bits taken by `WNetAddConnection2A` / `WNetCancelConnection2A`,
// with the values the Windows API defines for them.

/// The connection should be remembered and restored at the next logon
/// (connect); or, the persisted profile entry should be removed (disconnect).
pub const CONNECT_UPDATE_PROFILE: u32 = 1;

/// The connection is temporary and must not be restored at the next logon.
pub const CONNECT_TEMPORARY: u32 = 4;

/// The operating system may prompt the user for credentials instead of
/// failing at once.
pub const CONNECT_INTERACTIVE: u32 = 8;

/// Resource type of a disk share, as the Windows API defines it.
pub const RESOURCETYPE_DISK: u32 = 1;

/// The `TRUE` value of the Windows `BOOL` convention.
pub const BOOL_TRUE: i32 = 1;

/// The `FALSE` value of the Windows `BOOL` convention.
pub const BOOL_FALSE: i32 = 0;

/// The flags word handed to the native connect call: persistence is requested
/// only when a mount point is present (the operating system does not remember
/// deviceless connections), otherwise the connection is marked temporary; the
/// interactive bit is added exactly when prompting is allowed.
pub open spec fn spec_connect_flags(mounted: bool, persist: bool, interactive: bool) -> u32 {
    ((if persist && mounted {
        CONNECT_UPDATE_PROFILE
    } else {
        CONNECT_TEMPORARY
    }) + (if interactive {
        CONNECT_INTERACTIVE
    } else {
        0
    })) as u32
}

/// The flags word handed to the native disconnect call: the persisted profile
/// is updated only when persistence was asked for and a mount point is
/// present; otherwise no flag is set.
pub open spec fn spec_disconnect_flags(mounted: bool, persist: bool) -> u32 {
    if persist && mounted {
        CONNECT_UPDATE_PROFILE
    } else {
        0
    }
}

/// A `bool` in the Windows `BOOL` convention.
pub open spec fn spec_native_bool(b: bool) -> i32 {
    if b {
        BOOL_TRUE
    } else {
        BOOL_FALSE
    }
}

/// Compute the connect flags word.
pub fn connect_flags(mounted: bool, persist: bool, interactive: bool) -> (r: u32)
    ensures
        r == spec_connect_flags(mounted, persist, interactive),
{
    let base: u32 = if persist && mounted {
        CONNECT_UPDATE_PROFILE
    } else {
        CONNECT_TEMPORARY
    };
    if interactive {
        base + CONNECT_INTERACTIVE
    } else {
        base
    }
}

/// Compute the disconnect flags word.
pub fn disconnect_flags(mounted: bool, persist: bool) -> (r: u32)
    ensures
        r == spec_disconnect_flags(mounted, persist),
{
    if persist && mounted {
        CONNECT_UPDATE_PROFILE
    } else {
        0
    }
}

/// Translate a `bool` to the Windows `BOOL` convention.
pub fn native_bool(b: bool) -> (r: i32)
    ensures
        r == spec_native_bool(b),
{
    if b {
        BOOL_TRUE
    } else {
        BOOL_FALSE
    }
}

/// Asking to persist has an effect exactly when a mount point is present:
/// with one, the update-profile flag is set; without one, or when persistence
/// was not asked for, the connection is marked temporary instead, and the
/// update-profile flag is absent.
pub proof fn lemma_connect_flags_persist(mounted: bool, persist: bool, interactive: bool)
    ensures
        persist && mounted ==> spec_connect_flags(mounted, persist, interactive) == CONNECT_UPDATE_PROFILE + (if interactive {
            CONNECT_INTERACTIVE
        } else {
            0u32
        }),
        !(persist && mounted) ==> spec_connect_flags(mounted, persist, interactive) == CONNECT_TEMPORARY + (if interactive {
            CONNECT_INTERACTIVE
        } else {
            0u32
        }),
{
}

/// For the disconnect flags, persistence without a mount point, or no
/// persistence at all, yields a flags word of zero; persistence with a mount
/// point yields exactly the update-profile flag.
pub proof fn lemma_disconnect_flags_persist(mounted: bool, persist: bool)
    ensures
        persist && mounted ==> spec_disconnect_flags(mounted, persist) == CONNECT_UPDATE_PROFILE,
        !(persist && mounted) ==> spec_disconnect_flags(mounted, persist) == 0,
{
}

} // verus!
