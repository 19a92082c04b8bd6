//! `name_to_handle_at`: from a path to a file handle.
//!
//! The kernel tells how large a handle is only by refusing a buffer that is too small. So
//! a lookup first probes with a buffer that has no room at all, and then fetches the handle
//! with a buffer of the size that it was told, again and again as long as the kernel asks
//! for another size.
//!
//! A [`Lookup`] is the state between two calls. [`Lookup::request`] is the call to make,
//! and [`Lookup::advance`] takes the kernel's reply to it.
use vstd::prelude::*;

use crate::errno::Errnos;
use crate::flags::{mount_id, MountId, AT_HANDLE_MNT_ID_UNIQUE};
use crate::handle::{
    handle_layout, FileHandle, FileHandleView, HandleHeader, HandleLayout,
};
use crate::supported::{verdict, Supported};

verus! {

/// How far a lookup has come.
#[derive(Debug, Clone, Copy, PartialEq, Eq, Structural)]
pub enum Phase {
    /// The size of the handle is not known.
    Probe,
    /// The kernel asked for a buffer with this header.
    Fetch(HandleHeader),
}

/// A lookup between two calls.
#[derive(Debug)]
pub struct Lookup {
    errnos: Errnos,
    known: Supported,
    dirfd: i32,
    path: Vec<u8>,
    flags: i32,
    phase: Phase,
}

/// What a [`Lookup`] is about.
pub struct LookupView {
    /// The error numbers of the machine.
    pub errnos: Errnos,
    /// What was known of the call when the lookup began.
    pub known: Supported,
    /// The directory that the path is relative to.
    pub dirfd: i32,
    /// The path, with the zero that ends it.
    pub path: Seq<u8>,
    /// The flags of the call.
    pub flags: i32,
    /// How far the lookup has come.
    pub phase: Phase,
}

/// One call of `name_to_handle_at` to make.
///
/// The kernel gets a buffer of the given layout, which starts with the given header and is
/// zero behind it, and a 64-bit cell for the mount ID, which is zero before the first call.
#[derive(Debug)]
pub struct NameRequest<'a> {
    /// The directory that the path is relative to.
    pub dirfd: i32,
    /// The path, with the zero that ends it.
    pub path: &'a [u8],
    /// The header of the buffer.
    pub header: HandleHeader,
    /// The layout of the buffer.
    pub layout: HandleLayout,
    /// The flags of the call.
    pub flags: i32,
    /// Whether the kernel writes all 64 bits of the cell for the mount ID, or an integer of
    /// 32 bits at its start.
    pub wide_mount_id: bool,
}

/// What the kernel made of a [`NameRequest`].
#[derive(Debug)]
pub enum NameReply {
    /// The call failed with an error number, and left this header in the buffer.
    Failed { errno: i32, header: HandleHeader },
    /// The call succeeded. It left this header and these bytes behind it in the buffer (as
    /// many as the request had room for), and this number in the cell for the mount ID.
    Filled { header: HandleHeader, payload: Vec<u8>, mount_cell: u64 },
}

/// What follows from a reply.
#[derive(Debug)]
pub enum NameStep {
    /// The lookup goes on with another call.
    Again(Lookup),
    /// The lookup is over, with a handle and a mount ID or with an error number.
    Done(Result<(FileHandle, MountId), i32>),
}

/// What a [`NameStep`] says.
pub enum NameStepView {
    Again(LookupView),
    Done(Result<(FileHandleView, MountId), i32>),
}

impl NameReply {
    /// The error number of a failure.
    pub open spec fn failure(self) -> Option<i32> {
        match self {
            NameReply::Failed { errno, .. } => Some(errno),
            NameReply::Filled { .. } => None,
        }
    }

    /// The header that the kernel left.
    pub open spec fn header(self) -> HandleHeader {
        match self {
            NameReply::Failed { header, .. } => header,
            NameReply::Filled { header, .. } => header,
        }
    }
}

impl View for NameStep {
    type V = NameStepView;

    open spec fn view(&self) -> NameStepView {
        match *self {
            NameStep::Again(lookup) => NameStepView::Again(lookup@),
            NameStep::Done(Ok((handle, id))) => NameStepView::Done(Ok((handle@, id))),
            NameStep::Done(Err(errno)) => NameStepView::Done(Err(errno)),
        }
    }
}

impl LookupView {
    /// The buffer that the lookup asks for next can exist.
    pub open spec fn wf(self) -> bool {
        crate::handle::has_layout(self.header().handle_bytes as int)
    }

    /// The header of the next request: no room at all while the size is not known.
    pub open spec fn header(self) -> HandleHeader {
        match self.phase {
            Phase::Probe => HandleHeader { handle_bytes: 0, handle_type: 0 },
            Phase::Fetch(header) => header,
        }
    }

    /// The lookup after the kernel has asked for a buffer with the given header.
    pub open spec fn fetching(self, header: HandleHeader) -> LookupView {
        LookupView { phase: Phase::Fetch(header), ..self }
    }

    /// Whether a failure leads to another call: the buffer was too small, and a probe was
    /// told a size.
    pub open spec fn repeats(self, errno: i32, header: HandleHeader) -> bool {
        errno == self.errnos.eoverflow && (self.phase is Probe ==> header.handle_bytes != 0)
    }

    /// Whether the kernel can have given the reply. A buffer without room is never filled,
    /// a handle never exceeds the room that there was, and no buffer is asked for that
    /// cannot exist.
    pub open spec fn accepts(self, reply: NameReply) -> bool {
        match reply {
            NameReply::Failed { errno, header } => self.repeats(errno, header) ==> crate::handle::has_layout(
                header.handle_bytes as int,
            ),
            NameReply::Filled { header, payload, .. } => {
                &&& self.phase is Fetch
                &&& payload@.len() == self.header().handle_bytes
                &&& header.handle_bytes <= payload@.len()
            },
        }
    }

    /// What a reply teaches about the call: only the reply to the probe teaches anything.
    pub open spec fn verdict(self, reply: NameReply) -> Option<Supported> {
        match self.phase {
            Phase::Probe => verdict(self.errnos, self.known, reply.failure()),
            Phase::Fetch(_) => None,
        }
    }

    /// What follows from a reply.
    pub open spec fn next(self, reply: NameReply) -> NameStepView {
        match reply {
            NameReply::Failed { errno, header } => if self.repeats(errno, header) {
                NameStepView::Again(self.fetching(header))
            } else {
                NameStepView::Done(Err(errno))
            },
            NameReply::Filled { header, payload, mount_cell } => NameStepView::Done(
                Ok((found_handle(header, payload@), mount_id(self.flags, mount_cell))),
            ),
        }
    }
}

/// The file handle in a buffer that the kernel filled.
pub open spec fn found_handle(header: HandleHeader, payload: Seq<u8>) -> FileHandleView {
    FileHandleView {
        handle_type: header.handle_type,
        handle: payload.take(header.handle_bytes as int),
    }
}

/// The lookup before its first call.
pub open spec fn first_lookup(
    errnos: Errnos,
    known: Supported,
    dirfd: i32,
    path: Seq<u8>,
    flags: i32,
) -> LookupView {
    LookupView { errnos, known, dirfd, path: path.push(0), flags, phase: Phase::Probe }
}

impl View for Lookup {
    type V = LookupView;

    closed spec fn view(&self) -> LookupView {
        LookupView {
            errnos: self.errnos,
            known: self.known,
            dirfd: self.dirfd,
            path: self.path@,
            flags: self.flags,
            phase: self.phase,
        }
    }
}

impl Lookup {
    #[verifier::type_invariant]
    spec fn inv(self) -> bool {
        self@.wf()
    }

    /// Begins a lookup of a path relative to a directory. It is refused with `ENOSYS`,
    /// without any call, if the kernel is known to lack the call.
    pub fn start(
        errnos: Errnos,
        known: Supported,
        dirfd: i32,
        path: &[u8],
        flags: i32,
    ) -> (lookup: Result<Lookup, i32>)
        ensures
            match (crate::supported::known_missing(errnos, known), lookup) {
                (Some(errno), Err(e)) => e == errno,
                (None, Ok(l)) => l@ == first_lookup(errnos, known, dirfd, path@, flags) && l@.wf(),
                _ => false,
            },
            lookup is Err <==> known == Supported::No,
            lookup matches Err(errno) ==> errno == errnos.enosys,
            lookup matches Ok(l) ==> {
                &&& l@.errnos == errnos
                &&& l@.known == known
                &&& l@.dirfd == dirfd
                &&& l@.path == path@ + seq![0u8]
                &&& l@.flags == flags
                &&& l@.phase is Probe
            },
    {
        if known == Supported::No {
            return Err(errnos.enosys);
        }
        let mut path: Vec<u8> = vstd::slice::slice_to_vec(path);
        path.push(0);
        Ok(Lookup { errnos, known, dirfd, path, flags, phase: Phase::Probe })
    }

    /// The call to make next.
    pub fn request(&self) -> (request: NameRequest<'_>)
        ensures
            request.dirfd == self@.dirfd,
            request.path@ == self@.path,
            request.header == self@.header(),
            request.layout.holds(self@.header().handle_bytes as int),
            request.flags == self@.flags,
            request.wide_mount_id == crate::flags::wants_unique(self@.flags),
            self@.phase is Probe ==> request.header.handle_bytes == 0 && request.header.handle_type
                == 0,
            self@.phase matches Phase::Fetch(header) ==> request.header == header,
            request.layout.align == 4,
            request.layout.offset == 8,
            request.layout.size % 4 == 0,
            8 + request.header.handle_bytes <= request.layout.size < 8
                + request.header.handle_bytes + 4,
            request.wide_mount_id <==> self@.flags & AT_HANDLE_MNT_ID_UNIQUE != 0,
    {
        proof {
            use_type_invariant(self);
        }
        let header = match self.phase {
            Phase::Probe => HandleHeader { handle_bytes: 0, handle_type: 0 },
            Phase::Fetch(header) => header,
        };
        let layout = handle_layout(header.handle_bytes).unwrap();
        NameRequest {
            dirfd: self.dirfd,
            path: self.path.as_slice(),
            header,
            layout,
            flags: self.flags,
            wide_mount_id: self.flags & AT_HANDLE_MNT_ID_UNIQUE != 0,
        }
    }

    /// Whether the kernel can have given the reply. A buffer without room is never filled,
    /// a handle never exceeds the room that there was, and no buffer is asked for that
    /// cannot exist.
    pub fn accepts(&self, reply: &NameReply) -> (b: bool)
        ensures
            b == self@.accepts(*reply),
            *reply matches NameReply::Filled { header, payload, .. } ==> (b <==> {
                &&& self@.phase matches Phase::Fetch(room)
                &&& payload@.len() == room.handle_bytes
                &&& header.handle_bytes <= room.handle_bytes
            }),
            *reply matches NameReply::Failed { errno, header } ==> (!b ==> errno
                == self@.errnos.eoverflow && 8 + header.handle_bytes + 3 > isize::MAX),
    {
        match reply {
            NameReply::Failed { errno, header } => {
                !self.repeats(*errno, *header) || handle_layout(header.handle_bytes).is_some()
            },
            NameReply::Filled { header, payload, .. } => match self.phase {
                Phase::Probe => false,
                Phase::Fetch(room) => payload.len() == room.handle_bytes as usize
                    && header.handle_bytes as usize <= payload.len(),
            },
        }
    }

    fn repeats(&self, errno: i32, header: HandleHeader) -> (b: bool)
        ensures
            b == self@.repeats(errno, header),
    {
        if errno != self.errnos.eoverflow {
            return false;
        }
        match self.phase {
            Phase::Probe => header.handle_bytes != 0,
            Phase::Fetch(_) => true,
        }
    }

    /// Takes the reply to the request. Gives what is to be written down about the call, if
    /// anything, and how the lookup goes on.
    pub fn advance(self, reply: NameReply) -> (r: (Option<Supported>, NameStep))
        requires
            self@.accepts(reply),
        ensures
            r.0 == self@.verdict(reply),
            r.1@ == self@.next(reply),
            r.1 matches NameStep::Again(lookup) ==> lookup@.wf(),
            // What is to be written down.
            self@.phase is Fetch ==> r.0 is None,
            self@.phase is Probe ==> (r.0 == Some(Supported::No) <==> (reply
                matches NameReply::Failed { errno, .. } && errno == self@.errnos.enosys)),
            self@.phase is Probe && r.0 != Some(Supported::No) ==> r.0 == if self@.known
                == Supported::Unknown {
                Some(Supported::Yes)
            } else {
                None
            },
            // A failure leads to another call for the same file, or is the result.
            reply matches NameReply::Failed { errno, header } ==> {
                &&& r.1 is Again <==> errno == self@.errnos.eoverflow && (self@.phase is Probe
                    ==> header.handle_bytes != 0)
                &&& r.1 matches NameStep::Done(result) ==> result == Err::<
                    (FileHandle, MountId),
                    i32,
                >(errno)
                &&& r.1 matches NameStep::Again(l) ==> {
                    &&& l@.errnos == self@.errnos
                    &&& l@.known == self@.known
                    &&& l@.dirfd == self@.dirfd
                    &&& l@.path == self@.path
                    &&& l@.flags == self@.flags
                    &&& l@.phase == Phase::Fetch(header)
                }
            },
            // A filled buffer holds the result.
            reply matches NameReply::Filled { header, payload, mount_cell } ==> {
                &&& r.1 matches NameStep::Done(Ok((handle, id)))
                &&& handle.handle_type == header.handle_type
                &&& handle.handle@ == payload@.take(header.handle_bytes as int)
                &&& self@.flags & AT_HANDLE_MNT_ID_UNIQUE != 0 ==> id == MountId::Unique(mount_cell)
                &&& self@.flags & AT_HANDLE_MNT_ID_UNIQUE == 0 ==> (id matches MountId::Reusable(n)
                    && n == mount_cell % 0x1_0000_0000)
            },
    {
        let failure = match &reply {
            NameReply::Failed { errno, .. } => Some(*errno),
            NameReply::Filled { .. } => None,
        };
        let learned = match self.phase {
            Phase::Probe => verdict(self.errnos, self.known, failure),
            Phase::Fetch(_) => None,
        };
        let step = match reply {
            NameReply::Failed { errno, header } => if self.repeats(errno, header) {
                let Lookup { errnos, known, dirfd, path, flags, phase: _ } = self;
                NameStep::Again(
                    Lookup { errnos, known, dirfd, path, flags, phase: Phase::Fetch(header) },
                )
            } else {
                NameStep::Done(Err(errno))
            },
            NameReply::Filled { header, payload, mount_cell } => {
                let mut handle = payload;
                handle.truncate(header.handle_bytes as usize);
                NameStep::Done(
                    Ok(
                        (
                            FileHandle { handle_type: header.handle_type, handle },
                            mount_id(self.flags, mount_cell),
                        ),
                    ),
                )
            },
        };
        (learned, step)
    }
}

} // verus!
