//! File handles, the C header in front of them, and the buffer that holds both.
use vstd::prelude::*;

verus! {

/// A file handle that uniquely identifies a file within a filesystem.
///
/// This structure contains an opaque filesystem-specific handle that can be used to reopen
/// a file, or to get a stable reference to a file.
#[derive(Debug, Eq)]
pub struct FileHandle {
    pub handle_type: i32,
    pub handle: Vec<u8>,
}

/// What a [`FileHandle`] says: its type and its bytes.
pub struct FileHandleView {
    pub handle_type: i32,
    pub handle: Seq<u8>,
}

impl View for FileHandle {
    type V = FileHandleView;

    open spec fn view(&self) -> FileHandleView {
        FileHandleView { handle_type: self.handle_type, handle: self.handle@ }
    }
}

impl Clone for FileHandle {
    fn clone(&self) -> (copy: FileHandle)
        ensures
            copy@ == self@,
            copy.handle_type == self.handle_type,
            copy.handle@ == self.handle@,
    {
        FileHandle {
            handle_type: self.handle_type,
            handle: vstd::slice::slice_to_vec(self.handle.as_slice()),
        }
    }
}

impl PartialEq for FileHandle {
    fn eq(&self, other: &FileHandle) -> (b: bool)
        ensures
            b <==> self.handle_type == other.handle_type && self.handle@ == other.handle@,
    {
        if self.handle_type != other.handle_type || self.handle.len() != other.handle.len() {
            return false;
        }
        let mut i: usize = 0;
        while i < self.handle.len()
            invariant
                i <= self.handle.len(),
                self.handle.len() == other.handle.len(),
                forall|j: int| 0 <= j < i ==> self.handle@[j] == other.handle@[j],
            decreases self.handle.len() - i,
        {
            if self.handle[i] != other.handle[i] {
                return false;
            }
            i += 1;
        }
        assert(self.handle@ =~= other.handle@);
        true
    }
}

impl vstd::std_specs::cmp::PartialEqSpecImpl for FileHandle {
    open spec fn obeys_eq_spec() -> bool {
        true
    }

    open spec fn eq_spec(&self, other: &FileHandle) -> bool {
        self@ == other@
    }
}

/// The two fields of the C structure `file_handle` that stand in front of the handle's
/// bytes.
#[derive(Debug, Clone, Copy, PartialEq, Eq, Structural)]
pub struct HandleHeader {
    /// In a request the number of bytes that the buffer has room for, in a reply the number
    /// of bytes that the handle has or would need.
    pub handle_bytes: u32,
    /// The type of the handle.
    pub handle_type: i32,
}

/// The size of a [`HandleHeader`] in memory.
pub const HEADER_SIZE: usize = 8;

/// The alignment of a [`HandleHeader`] in memory.
pub const HEADER_ALIGN: usize = 4;

/// The memory that a header and the bytes behind it take.
#[derive(Debug, Clone, Copy, PartialEq, Eq, Structural)]
pub struct HandleLayout {
    /// The size of the whole buffer.
    pub size: usize,
    /// The alignment of the buffer.
    pub align: usize,
    /// Where in the buffer the handle's bytes begin.
    pub offset: usize,
}

/// The size of a buffer for a handle of so many bytes: header and bytes, padded to a
/// multiple of the alignment.
pub open spec fn padded_size(handle_bytes: int) -> int {
    (HEADER_SIZE + handle_bytes + (HEADER_ALIGN - 1)) / HEADER_ALIGN as int * HEADER_ALIGN
}

/// Whether a buffer for a handle of so many bytes can exist: no allocation exceeds
/// `isize::MAX` bytes.
pub open spec fn has_layout(handle_bytes: int) -> bool {
    padded_size(handle_bytes) <= isize::MAX
}

impl HandleLayout {
    /// The layout is that of a buffer for a handle of so many bytes.
    pub open spec fn holds(self, handle_bytes: int) -> bool {
        &&& self.size == padded_size(handle_bytes)
        &&& self.align == HEADER_ALIGN
        &&& self.offset == HEADER_SIZE
    }
}

/// The layout of a buffer for a handle of so many bytes; `None` if there can be no such
/// buffer.
pub fn handle_layout(handle_bytes: u32) -> (layout: Option<HandleLayout>)
    ensures
        layout is Some <==> has_layout(handle_bytes as int),
        layout matches Some(l) ==> l.holds(handle_bytes as int),
        layout matches Some(l) ==> {
            &&& l.align == 4
            &&& l.offset == 8
            &&& l.size % 4 == 0
            &&& 8 + handle_bytes <= l.size < 8 + handle_bytes + 4
            &&& l.size <= isize::MAX
        },
        layout is None ==> 8 + handle_bytes + 3 > isize::MAX,
{
    let bytes: usize = handle_bytes as usize;
    let limit: usize = isize::MAX as usize;
    if bytes > limit - HEADER_SIZE {
        return None;
    }
    let end: usize = HEADER_SIZE + bytes;
    let size: usize = (end + (HEADER_ALIGN - 1)) / HEADER_ALIGN * HEADER_ALIGN;
    if size > limit {
        None
    } else {
        Some(HandleLayout { size, align: HEADER_ALIGN, offset: HEADER_SIZE })
    }
}

} // verus!
