use name_to_handle_at::{
    Errnos, FileHandle, HandleHeader, Lookup, NameReply, NameStep, Opening, Supported,
};

fn handle(len: usize) -> FileHandle {
    FileHandle { handle_type: 77, handle: vec![5; len] }
}

#[test]
fn request_holds_the_handle() {
    let handle = FileHandle { handle_type: -2, handle: vec![1, 2, 3, 4, 5] };
    let opening =
        Opening::start(Errnos::host(), Supported::Unknown, 4, &handle, libc::O_PATH).unwrap();
    let request = opening.request();
    assert_eq!(request.mount_fd, 4);
    assert_eq!(request.header, HandleHeader { handle_bytes: 5, handle_type: -2 });
    assert_eq!(request.payload, &[1, 2, 3, 4, 5]);
    assert_eq!(request.layout.size, 16);
    assert_eq!(request.layout.align, 4);
    assert_eq!(request.layout.offset, 8);
    assert_eq!(request.flags, libc::O_PATH);
}

#[test]
fn longest_handle_is_taken() {
    let longest = handle(65535);
    let opening = Opening::start(Errnos::host(), Supported::Yes, 4, &longest, 0).unwrap();
    assert_eq!(opening.request().header.handle_bytes, 65535);
    assert_eq!(opening.request().layout.size, 65544);
    let empty = handle(0);
    let opening = Opening::start(Errnos::host(), Supported::Yes, 4, &empty, 0).unwrap();
    assert_eq!(opening.request().header.handle_bytes, 0);
    assert_eq!(opening.request().layout.size, 8);
}

#[test]
fn too_long_handle_is_invalid() {
    let long = handle(65536);
    let refused = Opening::start(Errnos::host(), Supported::Unknown, 4, &long, 0);
    assert_eq!(refused.err(), Some(libc::EINVAL));
}

#[test]
fn missing_call_refuses_any_opening() {
    let refused = Opening::start(Errnos::host(), Supported::No, 4, &handle(1), 0).err();
    assert_eq!(refused, Some(libc::ENOSYS));
    let refused = Opening::start(Errnos::host(), Supported::No, 4, &handle(65536), 0).err();
    assert_eq!(refused, Some(libc::ENOSYS));
}

#[test]
fn outcome_comes_out_as_it_is() {
    let handle = handle(3);
    let start = |known| Opening::start(Errnos::host(), known, 4, &handle, 0).unwrap();
    assert_eq!(start(Supported::Unknown).finish(Ok(9)), (Some(Supported::Yes), Ok(9)));
    assert_eq!(start(Supported::Yes).finish(Ok(9)), (None, Ok(9)));
    assert_eq!(
        start(Supported::Unknown).finish(Err(libc::EPERM)),
        (Some(Supported::Yes), Err(libc::EPERM))
    );
    assert_eq!(start(Supported::Yes).finish(Err(libc::EPERM)), (None, Err(libc::EPERM)));
    assert_eq!(
        start(Supported::Unknown).finish(Err(libc::ENOSYS)),
        (Some(Supported::No), Err(libc::ENOSYS))
    );
    assert_eq!(
        start(Supported::Yes).finish(Err(libc::ENOSYS)),
        (Some(Supported::No), Err(libc::ENOSYS))
    );
}

#[test]
fn found_handle_goes_back_to_the_kernel() {
    let header = HandleHeader { handle_bytes: 6, handle_type: 254 };
    let lookup = Lookup::start(Errnos::host(), Supported::Unknown, 3, b"", 0x1000).unwrap();
    let probed = NameReply::Failed { errno: libc::EOVERFLOW, header };
    let lookup = match lookup.advance(probed).1 {
        NameStep::Again(next) => next,
        NameStep::Done(_) => panic!("over"),
    };
    let reply = NameReply::Filled { header, payload: vec![6, 5, 4, 3, 2, 1], mount_cell: 29 };
    let (found, _) = match lookup.advance(reply).1 {
        NameStep::Again(_) => panic!("goes on"),
        NameStep::Done(result) => result.unwrap(),
    };
    let opening = Opening::start(Errnos::host(), Supported::Unknown, 3, &found, 0).unwrap();
    assert_eq!(opening.request().header, header);
    assert_eq!(opening.request().payload, &[6, 5, 4, 3, 2, 1]);
}
