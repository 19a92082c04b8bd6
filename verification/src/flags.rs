//! The flags of `name_to_handle_at`, and the mount ID that one of them selects.
use vstd::prelude::*;

verus! {

/// Follow symbolic links when resolving the path.
///
/// By default, symbolic links are not followed. This flag is equivalent to
/// `libc::AT_SYMLINK_FOLLOW`.
pub const AT_SYMLINK_FOLLOW: i32 = 0x400;

/// Allow empty pathname to refer to the file descriptor itself.
///
/// When this flag is specified with an empty path, the file handle is obtained for the
/// file that the file descriptor refers to. This flag is equivalent to
/// `libc::AT_EMPTY_PATH`.
pub const AT_EMPTY_PATH: i32 = 0x1000;

/// Return a file identifier instead of a file handle.
///
/// Requires Linux 6.5 or later. The caller indicates that the returned handle is needed
/// to identify the filesystem object, and not for opening the file later.
pub const AT_HANDLE_FID: i32 = 0x200;

/// Return a unique mount ID.
///
/// Requires Linux 6.8 or later. When this flag is specified, the mount ID is a
/// [`MountId::Unique`] instead of a [`MountId::Reusable`].
pub const AT_HANDLE_MNT_ID_UNIQUE: i32 = 0x001;

/// A mount ID identifying the filesystem containing a file.
#[derive(Debug, Clone, Copy, PartialEq, Eq, Structural)]
pub enum MountId {
    /// A traditional 32-bit mount ID that may be reused after the filesystem is unmounted.
    /// Returned when [`AT_HANDLE_MNT_ID_UNIQUE`] is not used.
    Reusable(u32),
    /// A unique 64-bit mount ID (Linux 6.8+, same as returned by statx(2) with
    /// STATX_MNT_ID_UNIQUE) that is guaranteed to never be reused across the entire
    /// lifetime of the system. Returned when [`AT_HANDLE_MNT_ID_UNIQUE`] is used.
    Unique(u64),
}

/// Whether the flags ask for a unique mount ID.
pub open spec fn wants_unique(flags: i32) -> bool {
    flags & AT_HANDLE_MNT_ID_UNIQUE != 0
}

/// The mount ID in a 64-bit cell that the kernel wrote to under the given flags: the whole
/// number if the flags ask for a unique ID, its lower 32 bits if not.
pub open spec fn spec_mount_id(flags: i32, cell: u64) -> MountId {
    if wants_unique(flags) {
        MountId::Unique(cell)
    } else {
        MountId::Reusable((cell % 0x1_0000_0000) as u32)
    }
}

/// The mount ID in a 64-bit cell that the kernel wrote to under the given flags: the whole
/// number if the flags ask for a unique ID, its lower 32 bits if not.
#[verifier::when_used_as_spec(spec_mount_id)]
pub fn mount_id(flags: i32, cell: u64) -> (id: MountId)
    ensures
        id == mount_id(flags, cell),
        flags & AT_HANDLE_MNT_ID_UNIQUE != 0 ==> id == MountId::Unique(cell),
        flags & AT_HANDLE_MNT_ID_UNIQUE == 0 ==> (id matches MountId::Reusable(n) && n == cell
            % 0x1_0000_0000),
{
    if flags & AT_HANDLE_MNT_ID_UNIQUE != 0 {
        MountId::Unique(cell)
    } else {
        assert(cell as u32 == (cell % 0x1_0000_0000) as u32) by (bit_vector);
        MountId::Reusable(#[verifier::truncate] (cell as u32))
    }
}

} // verus!
