use name_to_handle_at::supported::verdict;
use name_to_handle_at::{
    cvt, cvt_code, cvt_with, handle_layout, mount_id, AtomicSupported, Errnos, FileHandle, HandleLayout,
    IsMinusOne, MountId, Supported, AT_EMPTY_PATH, AT_HANDLE_FID, AT_HANDLE_MNT_ID_UNIQUE,
    AT_SYMLINK_FOLLOW,
};

#[test]
fn error_numbers_are_those_of_the_c_library() {
    let errnos = Errnos::host();
    assert_eq!(errnos.enosys, libc::ENOSYS);
    assert_eq!(errnos.eoverflow, libc::EOVERFLOW);
    assert_eq!(errnos.einval, libc::EINVAL);
}

#[test]
fn flags_are_those_of_the_c_library() {
    assert_eq!(AT_SYMLINK_FOLLOW, libc::AT_SYMLINK_FOLLOW);
    assert_eq!(AT_EMPTY_PATH, libc::AT_EMPTY_PATH);
    assert_eq!(AT_HANDLE_FID, libc::AT_HANDLE_FID);
    assert_eq!(AT_HANDLE_MNT_ID_UNIQUE, libc::AT_HANDLE_MNT_ID_UNIQUE);
}

#[test]
fn flags_have_no_bit_in_common() {
    let all = AT_SYMLINK_FOLLOW | AT_EMPTY_PATH | AT_HANDLE_FID | AT_HANDLE_MNT_ID_UNIQUE;
    assert_eq!(all.count_ones(), 4);
}

#[test]
fn mount_id_is_read_by_its_flag() {
    let cell = 0x0123_4567_89ab_cdef;
    assert_eq!(mount_id(0, cell), MountId::Reusable(0x89ab_cdef));
    assert_eq!(mount_id(AT_EMPTY_PATH | AT_HANDLE_FID, cell), MountId::Reusable(0x89ab_cdef));
    assert_eq!(mount_id(AT_HANDLE_MNT_ID_UNIQUE, cell), MountId::Unique(cell));
    assert_eq!(mount_id(AT_SYMLINK_FOLLOW | 1, cell), MountId::Unique(cell));
    assert_eq!(mount_id(-1, cell), MountId::Unique(cell));
    assert_eq!(mount_id(-2, cell), MountId::Reusable(0x89ab_cdef));
}

#[test]
fn buffer_is_padded() {
    let layout = |size| Some(HandleLayout { size, align: 4, offset: 8 });
    assert_eq!(handle_layout(0), layout(8));
    assert_eq!(handle_layout(1), layout(12));
    assert_eq!(handle_layout(4), layout(12));
    assert_eq!(handle_layout(5), layout(16));
    assert_eq!(handle_layout(128), layout(136));
}

#[test]
fn largest_buffers() {
    let largest = handle_layout(u32::MAX);
    if usize::BITS == 32 {
        assert_eq!(largest, None);
        assert!(handle_layout(0x7fff_fff4).is_some());
        assert!(handle_layout(0x7fff_fff5).is_none());
    } else {
        assert_eq!(largest.unwrap().size as u64, 0x1_0000_0008);
    }
}

#[test]
fn shared_value_holds_what_was_stored() {
    let shared = AtomicSupported::new(Supported::Unknown);
    assert_eq!(shared.load(), Supported::Unknown);
    shared.store(Supported::Yes);
    assert_eq!(shared.load(), Supported::Yes);
    shared.store(Supported::No);
    assert_eq!(shared.load(), Supported::No);
    shared.store(Supported::Unknown);
    assert_eq!(shared.load(), Supported::Unknown);
    assert_eq!(AtomicSupported::new(Supported::Yes).load(), Supported::Yes);
    assert_eq!(AtomicSupported::new(Supported::No).load(), Supported::No);
}

#[test]
fn codes_stand_for_values() {
    assert_eq!(Supported::Unknown.code(), 0);
    assert_eq!(Supported::Yes.code(), 1);
    assert_eq!(Supported::No.code(), 2);
    assert_eq!(Supported::from_code(0), Some(Supported::Unknown));
    assert_eq!(Supported::from_code(1), Some(Supported::Yes));
    assert_eq!(Supported::from_code(2), Some(Supported::No));
    assert_eq!(Supported::from_code(3), None);
    assert_eq!(Supported::from_code(255), None);
}

#[test]
fn missing_call_stays_missing() {
    let errnos = Errnos::host();
    let mut known = Supported::Unknown;
    for failure in [None, Some(libc::EPERM), Some(libc::ENOSYS)] {
        if let Some(learned) = verdict(errnos, known, failure) {
            known = learned;
        }
    }
    assert_eq!(known, Supported::No);
    assert_eq!(verdict(errnos, Supported::No, None), None);
}

#[test]
fn minus_one_is_an_error() {
    assert_eq!(cvt_with(-1i32, "failed"), Err("failed"));
    assert_eq!(cvt_with(0i32, "failed"), Ok(0));
    assert_eq!(cvt_with(-2i64, "failed"), Ok(-2));
    assert_eq!(cvt(3i32).unwrap(), 3);
    assert_eq!(cvt(i64::MIN).unwrap(), i64::MIN);
    assert!(cvt(-1isize).unwrap_err().raw_os_error().is_some());
}

#[test]
fn error_number_is_that_of_the_error() {
    assert_eq!(cvt_code(3i32), Ok(3));
    assert_eq!(cvt_code(-2i64), Ok(-2));
    let code = cvt_code(-1i32).unwrap_err();
    assert_eq!(cvt(-1i32).unwrap_err().raw_os_error(), Some(code));
}

#[test]
fn minus_one_of_every_width() {
    assert!((-1i8).is_minus_one() && !1i8.is_minus_one());
    assert!((-1i16).is_minus_one() && !255i16.is_minus_one());
    assert!((-1i32).is_minus_one() && !65535i32.is_minus_one());
    assert!((-1i64).is_minus_one() && !0xffff_ffffi64.is_minus_one());
    assert!((-1isize).is_minus_one() && !0isize.is_minus_one());
}

#[test]
fn handles_compare_by_type_and_bytes() {
    let handle = FileHandle { handle_type: 1, handle: vec![1, 2, 3] };
    assert_eq!(handle, handle.clone());
    assert_ne!(handle, FileHandle { handle_type: 2, handle: vec![1, 2, 3] });
    assert_ne!(handle, FileHandle { handle_type: 1, handle: vec![1, 2] });
    assert_ne!(handle, FileHandle { handle_type: 1, handle: vec![1, 2, 4] });
}
