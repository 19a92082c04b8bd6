use name_to_handle_at::{
    Errnos, FileHandle, HandleHeader, Lookup, MountId, NameReply, NameStep, Supported,
    AT_EMPTY_PATH, AT_HANDLE_FID, AT_HANDLE_MNT_ID_UNIQUE, AT_SYMLINK_FOLLOW,
};

fn errnos() -> Errnos {
    Errnos::host()
}

fn probing(known: Supported, flags: i32) -> Lookup {
    Lookup::start(errnos(), known, 3, b"tmp", flags).unwrap()
}

fn header(handle_bytes: u32, handle_type: i32) -> HandleHeader {
    HandleHeader { handle_bytes, handle_type }
}

fn too_small(handle_bytes: u32, handle_type: i32) -> NameReply {
    NameReply::Failed { errno: libc::EOVERFLOW, header: header(handle_bytes, handle_type) }
}

fn filled(handle_bytes: u32, handle_type: i32, payload: &[u8], mount_cell: u64) -> NameReply {
    NameReply::Filled {
        header: header(handle_bytes, handle_type),
        payload: payload.to_vec(),
        mount_cell,
    }
}

fn again(lookup: Lookup, reply: NameReply) -> Lookup {
    assert!(lookup.accepts(&reply));
    match lookup.advance(reply).1 {
        NameStep::Again(next) => next,
        NameStep::Done(result) => panic!("over with {:?}", result),
    }
}

fn done(lookup: Lookup, reply: NameReply) -> Result<(FileHandle, MountId), i32> {
    assert!(lookup.accepts(&reply));
    match lookup.advance(reply).1 {
        NameStep::Again(next) => panic!("goes on with {:?}", next),
        NameStep::Done(result) => result,
    }
}

fn learned(lookup: Lookup, reply: NameReply) -> Option<Supported> {
    assert!(lookup.accepts(&reply));
    lookup.advance(reply).0
}

#[test]
fn first_request_has_no_room() {
    let lookup = Lookup::start(errnos(), Supported::Unknown, 7, b"a/b", AT_EMPTY_PATH).unwrap();
    let request = lookup.request();
    assert_eq!(request.dirfd, 7);
    assert_eq!(request.path, b"a/b\0");
    assert_eq!(request.header, header(0, 0));
    assert_eq!(request.layout.size, 8);
    assert_eq!(request.layout.align, 4);
    assert_eq!(request.layout.offset, 8);
    assert_eq!(request.flags, 0x1000);
    assert!(!request.wide_mount_id);
}

#[test]
fn empty_path_is_one_zero() {
    let lookup = Lookup::start(errnos(), Supported::Yes, 0, b"", AT_EMPTY_PATH).unwrap();
    assert_eq!(lookup.request().path, &[0u8]);
}

#[test]
fn missing_call_refuses_lookup() {
    let refused = Lookup::start(errnos(), Supported::No, 3, b"tmp", 0);
    assert_eq!(refused.err(), Some(libc::ENOSYS));
}

#[test]
fn second_request_has_the_room_it_was_told() {
    let lookup = again(probing(Supported::Unknown, 0x400), too_small(13, 129));
    let request = lookup.request();
    assert_eq!(request.dirfd, 3);
    assert_eq!(request.path, b"tmp\0");
    assert_eq!(request.header, header(13, 129));
    assert_eq!(request.layout.size, 24);
    assert_eq!(request.layout.offset, 8);
    assert_eq!(request.flags, 0x400);
}

#[test]
fn handle_and_reusable_mount_id() {
    let lookup = again(probing(Supported::Unknown, AT_EMPTY_PATH), too_small(4, 1));
    let (handle, id) = done(lookup, filled(4, 1, &[9, 8, 7, 6], 0x1_0000_0017)).unwrap();
    assert_eq!(handle, FileHandle { handle_type: 1, handle: vec![9, 8, 7, 6] });
    assert_eq!(id, MountId::Reusable(0x17));
}

#[test]
fn handle_and_unique_mount_id() {
    let flags = AT_EMPTY_PATH | AT_HANDLE_MNT_ID_UNIQUE;
    let lookup = again(probing(Supported::Yes, flags), too_small(2, -5));
    assert!(lookup.request().wide_mount_id);
    let (handle, id) = done(lookup, filled(2, -5, &[1, 2], 0x1_0000_0017)).unwrap();
    assert_eq!(handle, FileHandle { handle_type: -5, handle: vec![1, 2] });
    assert_eq!(id, MountId::Unique(0x1_0000_0017));
}

#[test]
fn kernel_may_ask_again_and_again() {
    let lookup = probing(Supported::Unknown, AT_SYMLINK_FOLLOW | AT_HANDLE_FID);
    let lookup = again(lookup, too_small(4, 1));
    let lookup = again(lookup, too_small(8, 2));
    assert_eq!(lookup.request().header, header(8, 2));
    let lookup = again(lookup, too_small(0, 3));
    assert_eq!(lookup.request().header, header(0, 3));
    let lookup = again(lookup, too_small(6, 4));
    let (handle, id) = done(lookup, filled(3, 5, &[1, 2, 3, 4, 5, 6], 11)).unwrap();
    assert_eq!(handle, FileHandle { handle_type: 5, handle: vec![1, 2, 3] });
    assert_eq!(id, MountId::Reusable(11));
}

#[test]
fn probe_without_size_is_an_error() {
    let result = done(probing(Supported::Yes, 0), too_small(0, 1));
    assert_eq!(result, Err(libc::EOVERFLOW));
}

#[test]
fn other_errors_come_out_as_they_are() {
    let not_found = NameReply::Failed { errno: libc::ENOENT, header: header(12, 1) };
    assert_eq!(done(probing(Supported::Yes, 0), not_found), Err(libc::ENOENT));
    let lookup = again(probing(Supported::Yes, 0), too_small(4, 1));
    let stale = NameReply::Failed { errno: libc::ESTALE, header: header(4, 1) };
    assert_eq!(done(lookup, stale), Err(libc::ESTALE));
}

#[test]
fn probe_teaches_whether_the_call_exists() {
    let missing = || NameReply::Failed { errno: libc::ENOSYS, header: header(0, 0) };
    let denied = || NameReply::Failed { errno: libc::EACCES, header: header(0, 0) };
    assert_eq!(learned(probing(Supported::Unknown, 0), missing()), Some(Supported::No));
    assert_eq!(learned(probing(Supported::Yes, 0), missing()), Some(Supported::No));
    assert_eq!(learned(probing(Supported::Unknown, 0), denied()), Some(Supported::Yes));
    assert_eq!(learned(probing(Supported::Yes, 0), denied()), None);
    assert_eq!(learned(probing(Supported::Unknown, 0), too_small(4, 1)), Some(Supported::Yes));
    assert_eq!(done(probing(Supported::Unknown, 0), missing()), Err(libc::ENOSYS));
}

#[test]
fn later_replies_teach_nothing() {
    let missing = NameReply::Failed { errno: libc::ENOSYS, header: header(4, 1) };
    let lookup = again(probing(Supported::Unknown, 0), too_small(4, 1));
    assert_eq!(learned(lookup, missing), None);
    let lookup = again(probing(Supported::Unknown, 0), too_small(1, 1));
    assert_eq!(learned(lookup, filled(1, 1, &[0], 1)), None);
}

#[test]
fn impossible_replies_are_told_apart() {
    let lookup = probing(Supported::Yes, 0);
    assert!(!lookup.accepts(&filled(0, 1, &[], 1)));
    assert!(lookup.accepts(&too_small(0, 1)));
    let lookup = again(lookup, too_small(2, 1));
    assert!(lookup.accepts(&filled(2, 1, &[1, 2], 1)));
    assert!(lookup.accepts(&filled(0, 1, &[1, 2], 1)));
    assert!(!lookup.accepts(&filled(3, 1, &[1, 2], 1)));
    assert!(!lookup.accepts(&filled(1, 1, &[1], 1)));
    assert!(!lookup.accepts(&filled(2, 1, &[1, 2, 3], 1)));
}
