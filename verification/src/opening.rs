//! `open_by_handle_at`: from a file handle to an open file.
//!
//! [`Opening::start`] checks the handle, [`Opening::request`] is the one call to make, and
//! [`Opening::finish`] takes what came of it.
use vstd::prelude::*;

use crate::errno::Errnos;
use crate::handle::{
    handle_layout, FileHandle, FileHandleView, HandleHeader, HandleLayout,
};
use crate::supported::{verdict, Supported};

verus! {

/// The most bytes that a handle can have to be opened.
pub const MAX_OPEN_BYTES: usize = 65535;

/// An opening before its call.
#[derive(Debug)]
pub struct Opening<'a> {
    errnos: Errnos,
    known: Supported,
    mount_fd: i32,
    handle: &'a FileHandle,
    flags: i32,
}

/// What an [`Opening`] is about.
pub struct OpeningView {
    /// The error numbers of the machine.
    pub errnos: Errnos,
    /// What was known of the call when the opening began.
    pub known: Supported,
    /// A file in the mounted filesystem that the handle belongs to.
    pub mount_fd: i32,
    /// The handle.
    pub handle: FileHandleView,
    /// The flags of the call.
    pub flags: i32,
}

/// One call of `open_by_handle_at` to make.
///
/// The kernel gets a buffer of the given layout, which starts with the given header, goes on
/// with the payload, and is zero behind it.
#[derive(Debug)]
pub struct OpenRequest<'a> {
    /// A file in the mounted filesystem that the handle belongs to.
    pub mount_fd: i32,
    /// The header of the buffer.
    pub header: HandleHeader,
    /// The bytes behind the header.
    pub payload: &'a [u8],
    /// The layout of the buffer.
    pub layout: HandleLayout,
    /// The flags of the call.
    pub flags: i32,
}

/// Why an opening is refused before any call: the kernel is known to lack the call, or the
/// handle is too long.
pub open spec fn refusal(errnos: Errnos, known: Supported, handle: FileHandleView) -> Option<i32> {
    if handle.handle.len() > MAX_OPEN_BYTES && known != Supported::No {
        Some(errnos.einval)
    } else {
        crate::supported::known_missing(errnos, known)
    }
}

/// The header of a buffer that holds a handle.
pub open spec fn header_of(handle: FileHandleView) -> HandleHeader {
    HandleHeader { handle_bytes: handle.handle.len() as u32, handle_type: handle.handle_type }
}

impl<'a> View for Opening<'a> {
    type V = OpeningView;

    closed spec fn view(&self) -> OpeningView {
        OpeningView {
            errnos: self.errnos,
            known: self.known,
            mount_fd: self.mount_fd,
            handle: self.handle@,
            flags: self.flags,
        }
    }
}

impl<'a> Opening<'a> {
    #[verifier::type_invariant]
    spec fn inv(self) -> bool {
        self@.handle.handle.len() <= MAX_OPEN_BYTES
    }

    /// Begins to open a file by its handle.
    pub fn start(
        errnos: Errnos,
        known: Supported,
        mount_fd: i32,
        handle: &'a FileHandle,
        flags: i32,
    ) -> (opening: Result<Opening<'a>, i32>)
        ensures
            match (refusal(errnos, known, handle@), opening) {
                (Some(errno), Err(e)) => e == errno,
                (None, Ok(o)) => o@ == (OpeningView {
                    errnos,
                    known,
                    mount_fd,
                    handle: handle@,
                    flags,
                }),
                _ => false,
            },
            opening is Err <==> known == Supported::No || handle.handle@.len() > 65535,
            opening matches Err(errno) ==> errno == if known == Supported::No {
                errnos.enosys
            } else {
                errnos.einval
            },
            opening matches Ok(o) ==> {
                &&& o@.errnos == errnos
                &&& o@.known == known
                &&& o@.mount_fd == mount_fd
                &&& o@.handle.handle_type == handle.handle_type
                &&& o@.handle.handle == handle.handle@
                &&& o@.flags == flags
            },
    {
        if known == Supported::No {
            return Err(errnos.enosys);
        }
        if handle.handle.len() > MAX_OPEN_BYTES {
            return Err(errnos.einval);
        }
        Ok(Opening { errnos, known, mount_fd, handle, flags })
    }

    /// The call to make.
    pub fn request(&self) -> (request: OpenRequest<'a>)
        ensures
            request.mount_fd == self@.mount_fd,
            request.header == header_of(self@.handle),
            request.header.handle_type == self@.handle.handle_type,
            request.header.handle_bytes == self@.handle.handle.len(),
            request.payload@ == self@.handle.handle,
            request.layout.holds(self@.handle.handle.len() as int),
            request.flags == self@.flags,
            request.layout.align == 4,
            request.layout.offset == 8,
            request.layout.size % 4 == 0,
            8 + self@.handle.handle.len() <= request.layout.size < 8 + self@.handle.handle.len() + 4,
    {
        proof {
            use_type_invariant(self);
        }
        let header = HandleHeader {
            handle_bytes: self.handle.handle.len() as u32,
            handle_type: self.handle.handle_type,
        };
        let layout = handle_layout(header.handle_bytes).unwrap();
        OpenRequest {
            mount_fd: self.mount_fd,
            header,
            payload: self.handle.handle.as_slice(),
            layout,
            flags: self.flags,
        }
    }

    /// Takes what the call returned: a file descriptor or an error number. Gives what is to
    /// be written down about the call, if anything, and what the opening results in.
    pub fn finish(self, outcome: Result<i32, i32>) -> (r: (Option<Supported>, Result<i32, i32>))
        ensures
            r.0 == verdict(self@.errnos, self@.known, outcome.err()),
            r.1 == outcome,
            r.0 == Some(Supported::No) <==> (outcome matches Err(errno) && errno
                == self@.errnos.enosys),
            r.0 != Some(Supported::No) ==> r.0 == if self@.known == Supported::Unknown {
                Some(Supported::Yes)
            } else {
                None
            },
    {
        let failure = match outcome {
            Ok(_) => None,
            Err(errno) => Some(errno),
        };
        (verdict(self.errnos, self.known, failure), outcome)
    }
}

} // verus!
