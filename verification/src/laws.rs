//! What holds across whole conversations with the kernel.
use vstd::prelude::*;

use crate::errno::Errnos;
use crate::flags::{
    mount_id, MountId, AT_EMPTY_PATH, AT_HANDLE_FID, AT_HANDLE_MNT_ID_UNIQUE, AT_SYMLINK_FOLLOW,
};
use crate::cvt::IsMinusOne;
use crate::handle::{FileHandle, FileHandleView, HandleHeader, HandleLayout, HEADER_ALIGN, HEADER_SIZE};
use crate::lookup::{Lookup, LookupView, NameReply, NameStep, NameStepView, Phase};
use crate::opening::MAX_OPEN_BYTES;
use crate::supported::{verdict, Supported};

verus! {

/// The lookup ends with the result exactly when the kernel has given the last of the
/// replies.
pub open spec fn ends(
    lookup: LookupView,
    replies: Seq<NameReply>,
    result: Result<(FileHandleView, MountId), i32>,
) -> bool
    decreases replies.len(),
{
    if replies.len() == 0 {
        false
    } else {
        match lookup.next(replies[0]) {
            NameStepView::Done(r) => replies.len() == 1 && r == result,
            NameStepView::Again(next) => ends(next, replies.drop_first(), result),
        }
    }
}

/// Where the lookup stands after the replies, if it is not over by then.
pub open spec fn after(lookup: LookupView, replies: Seq<NameReply>) -> Option<LookupView>
    decreases replies.len(),
{
    if replies.len() == 0 {
        Some(lookup)
    } else {
        match lookup.next(replies[0]) {
            NameStepView::Done(_) => None,
            NameStepView::Again(next) => after(next, replies.drop_first()),
        }
    }
}

/// Each of the first `n` replies asks for a larger buffer; if the lookup is about to probe,
/// the first of them also tells a size.
pub open spec fn asks_for_room(lookup: LookupView, replies: Seq<NameReply>, n: int) -> bool {
    forall|i: int| #![trigger replies[i]]
        0 <= i < n ==> replies[i].failure() == Some(lookup.errnos.eoverflow) && (i == 0
            && lookup.phase is Probe ==> replies[i].header().handle_bytes != 0)
}

proof fn asks_for_room_step(
    lookup: LookupView,
    next: LookupView,
    replies: Seq<NameReply>,
    n: int,
)
    requires
        0 < n <= replies.len(),
        lookup.next(replies[0]) == NameStepView::Again(next),
    ensures
        asks_for_room(lookup, replies, n) <==> asks_for_room(next, replies.drop_first(), n - 1),
{
    let rest = replies.drop_first();
    if asks_for_room(next, rest, n - 1) {
        assert forall|i: int| #![trigger replies[i]] 0 <= i < n implies replies[i].failure()
            == Some(lookup.errnos.eoverflow) && (i == 0 && lookup.phase is Probe
            ==> replies[i].header().handle_bytes != 0) by {
            if i > 0 {
                assert(rest[i - 1] == replies[i]);
            }
        }
    }
    if asks_for_room(lookup, replies, n) {
        assert forall|i: int| #![trigger rest[i]] 0 <= i < n - 1 implies rest[i].failure() == Some(
            next.errnos.eoverflow,
        ) && (i == 0 && next.phase is Probe ==> rest[i].header().handle_bytes != 0) by {
            assert(rest[i] == replies[i + 1]);
        }
    }
}

/// A lookup is still going on exactly as long as every reply has asked for more room. It
/// then asks for the very header that the last reply left, and for the same path, directory
/// and flags as ever.
pub proof fn lookup_asks_for_what_it_was_told(lookup: LookupView, replies: Seq<NameReply>)
    ensures
        after(lookup, replies) is Some <==> asks_for_room(lookup, replies, replies.len() as int),
        after(lookup, replies) matches Some(l) ==> l == if replies.len() == 0 {
            lookup
        } else {
            lookup.fetching(replies.last().header())
        },
        after(lookup, replies) matches Some(l) ==> {
            &&& l.errnos == lookup.errnos
            &&& l.known == lookup.known
            &&& l.dirfd == lookup.dirfd
            &&& l.path == lookup.path
            &&& l.flags == lookup.flags
            &&& replies.len() == 0 ==> l.phase == lookup.phase
            &&& replies.len() > 0 ==> (replies.last() matches NameReply::Failed { errno, header }
                && errno == lookup.errnos.eoverflow && l.phase == Phase::Fetch(header))
        },
    decreases replies.len(),
{
    if replies.len() > 0 {
        match lookup.next(replies[0]) {
            NameStepView::Done(_) => {
                assert(!asks_for_room(lookup, replies, replies.len() as int)) by {
                    if asks_for_room(lookup, replies, replies.len() as int) {
                        let first = replies[0];
                        assert(lookup.repeats(first.failure()->0, first.header()));
                    }
                }
            },
            NameStepView::Again(next) => {
                asks_for_room_step(lookup, next, replies, replies.len() as int);
                lookup_asks_for_what_it_was_told(next, replies.drop_first());
            },
        }
    }
}

proof fn ends_characterized(
    lookup: LookupView,
    replies: Seq<NameReply>,
    result: Result<(FileHandleView, MountId), i32>,
)
    ensures
        ends(lookup, replies, result) <==> {
            &&& replies.len() > 0
            &&& asks_for_room(lookup, replies, replies.len() - 1)
            &&& (if replies.len() == 1 {
                lookup
            } else {
                lookup.fetching(replies[replies.len() - 2].header())
            }).next(replies.last()) == NameStepView::Done(result)
        },
    decreases replies.len(),
{
    reveal_with_fuel(ends, 2);
    if replies.len() > 1 {
        let rest = replies.drop_first();
        let n = replies.len() - 1;
        match lookup.next(replies[0]) {
            NameStepView::Done(_) => {
                assert(!asks_for_room(lookup, replies, n)) by {
                    if asks_for_room(lookup, replies, n) {
                        let first = replies[0];
                        assert(lookup.repeats(first.failure()->0, first.header()));
                    }
                }
            },
            NameStepView::Again(next) => {
                asks_for_room_step(lookup, next, replies, n);
                ends_characterized(next, rest, result);
                assert(rest.last() == replies.last());
                if replies.len() > 2 {
                    assert(rest[rest.len() - 2] == replies[replies.len() - 2]);
                }
            },
        }
    }
}

/// A lookup yields a handle and a mount ID exactly when the kernel first refuses the probe
/// for want of room, telling a size, then asks for other sizes as often as it likes, and at
/// last fills a buffer. Handle and mount ID are what that last reply holds; nothing said
/// before it shows in them.
pub proof fn lookup_succeeds(
    lookup: LookupView,
    replies: Seq<NameReply>,
    handle: FileHandleView,
    id: MountId,
)
    requires
        lookup.phase is Probe,
        replies.len() > 0 ==> lookup.accepts(replies[0]),
    ensures
        ends(lookup, replies, Ok((handle, id))) <==> {
            &&& replies.len() >= 2
            &&& asks_for_room(lookup, replies, replies.len() - 1)
            &&& replies.last() matches NameReply::Filled { header, payload, mount_cell }
            &&& handle == crate::lookup::found_handle(header, payload@)
            &&& id == mount_id(lookup.flags, mount_cell)
        },
        ends(lookup, replies, Ok((handle, id))) ==> {
            &&& replies.last() matches NameReply::Filled { header, payload, mount_cell }
            &&& handle.handle_type == header.handle_type
            &&& handle.handle == payload@.take(header.handle_bytes as int)
            &&& lookup.flags & AT_HANDLE_MNT_ID_UNIQUE != 0 ==> id == MountId::Unique(mount_cell)
            &&& lookup.flags & AT_HANDLE_MNT_ID_UNIQUE == 0 ==> (id matches MountId::Reusable(n)
                && n == mount_cell % 0x1_0000_0000)
        },
{
    ends_characterized(lookup, replies, Ok((handle, id)));
}

/// A lookup fails exactly when the kernel, perhaps after asking for room, refuses a call
/// for another reason, or refuses the probe for want of room without telling a size. The
/// error is the kernel's own.
pub proof fn lookup_fails(lookup: LookupView, replies: Seq<NameReply>, errno: i32)
    requires
        lookup.phase is Probe,
    ensures
        ends(lookup, replies, Err(errno)) <==> {
            &&& replies.len() >= 1
            &&& asks_for_room(lookup, replies, replies.len() - 1)
            &&& replies.last().failure() == Some(errno)
            &&& errno != lookup.errnos.eoverflow || (replies.len() == 1
                && replies.last().header().handle_bytes == 0)
        },
        ends(lookup, replies, Err(errno)) ==> (replies.last() matches NameReply::Failed {
            errno: last,
            ..
        } && last == errno),
{
    ends_characterized(lookup, replies, Err(errno));
}

/// A conversation ends with one result at most.
pub proof fn lookup_ends_once(
    lookup: LookupView,
    replies: Seq<NameReply>,
    one: Result<(FileHandleView, MountId), i32>,
    other: Result<(FileHandleView, MountId), i32>,
)
    requires
        ends(lookup, replies, one),
        ends(lookup, replies, other),
    ensures
        one == other,
{
    ends_characterized(lookup, replies, one);
    ends_characterized(lookup, replies, other);
}

/// The handle that a lookup yields is the one that an opening hands back to the kernel: same
/// type, same length, same bytes. Only a handle that is too long is refused.
pub proof fn opening_returns_what_lookup_found(
    lookup: LookupView,
    reply: NameReply,
    handle: FileHandleView,
    id: MountId,
    errnos: Errnos,
    known: Supported,
)
    requires
        lookup.accepts(reply),
        lookup.next(reply) == NameStepView::Done(Ok((handle, id))),
        known != Supported::No,
    ensures
        handle.handle.len() == reply.header().handle_bytes,
        handle.handle_type == reply.header().handle_type,
        reply matches NameReply::Filled { payload, .. } && handle.handle == payload@.take(
            reply.header().handle_bytes as int,
        ),
        reply.header().handle_bytes <= MAX_OPEN_BYTES ==> {
            &&& crate::opening::refusal(errnos, known, handle) is None
            &&& crate::opening::header_of(handle) == reply.header()
        },
        reply.header().handle_bytes > MAX_OPEN_BYTES ==> crate::opening::refusal(
            errnos,
            known,
            handle,
        ) == Some(errnos.einval),
{
}

/// What is known of a call after its replies, each given by the error number that it failed
/// with, if it failed. Once the kernel is known to lack the call, no more calls are made.
pub open spec fn remembered(errnos: Errnos, known: Supported, failures: Seq<Option<i32>>) -> Supported
    decreases failures.len(),
{
    if failures.len() == 0 || known == Supported::No {
        known
    } else {
        let learned = match verdict(errnos, known, failures[0]) {
            Some(supported) => supported,
            None => known,
        };
        remembered(errnos, learned, failures.drop_first())
    }
}

/// Only the reply to the probe teaches whether the kernel has the call: once a lookup has had
/// a reply and goes on, no reply teaches anything.
pub proof fn only_the_probe_teaches(
    lookup: LookupView,
    replies: Seq<NameReply>,
    later: LookupView,
    reply: NameReply,
)
    requires
        replies.len() > 0,
        after(lookup, replies) == Some(later),
    ensures
        later.verdict(reply) is None,
{
    lookup_asks_for_what_it_was_told(lookup, replies);
}

/// A call counts as missing exactly if it did from the start or a reply ever said so, and
/// counts as unknown exactly as long as it did from the start and there was no reply.
pub proof fn missing_is_remembered(errnos: Errnos, known: Supported, failures: Seq<Option<i32>>)
    ensures
        remembered(errnos, known, failures) == Supported::No <==> known == Supported::No
            || failures.contains(Some(errnos.enosys)),
        remembered(errnos, known, failures) == Supported::Unknown <==> known == Supported::Unknown
            && failures.len() == 0,
    decreases failures.len(),
{
    if failures.len() > 0 && known != Supported::No {
        let rest = failures.drop_first();
        let learned = match verdict(errnos, known, failures[0]) {
            Some(supported) => supported,
            None => known,
        };
        missing_is_remembered(errnos, learned, rest);
        if rest.contains(Some(errnos.enosys)) {
            let i = rest.index_of(Some(errnos.enosys));
            assert(failures[i + 1] == Some(errnos.enosys));
        }
        if failures.contains(Some(errnos.enosys)) && failures[0] != Some(errnos.enosys) {
            let i = failures.index_of(Some(errnos.enosys));
            assert(rest[i - 1] == Some(errnos.enosys));
        }
    }
}

/// A probe that finds the call missing fails with `ENOSYS`. With that the call is known to be
/// missing, and a later lookup is refused with the same error number.
pub proof fn missing_lookup_is_noted(lookup: LookupView, header: HandleHeader)
    requires
        lookup.errnos.is_linux(),
        lookup.phase is Probe,
    ensures
        ({
            let reply = NameReply::Failed { errno: lookup.errnos.enosys, header };
            &&& lookup.accepts(reply)
            &&& lookup.next(reply) == NameStepView::Done(Err(lookup.errnos.enosys))
            &&& lookup.verdict(reply) matches Some(learned)
            &&& crate::supported::known_missing(lookup.errnos, learned) == Some(
                lookup.errnos.enosys,
            )
        }),
{
}

/// An opening that finds the call missing makes it known to be missing, and a later opening
/// of whatever handle is refused with `ENOSYS`.
pub proof fn missing_opening_is_noted(errnos: Errnos, known: Supported, handle: FileHandleView)
    ensures
        verdict(errnos, known, Some(errnos.enosys)) matches Some(learned)
            && crate::opening::refusal(errnos, learned, handle) == Some(errnos.enosys),
{
}

/// A reply other than `ENOSYS` never makes a call count as missing, and whatever the reply,
/// the call does not stay unknown.
pub proof fn replies_settle_support(errnos: Errnos, known: Supported, failure: Option<i32>)
    ensures
        failure != Some(errnos.enosys) ==> verdict(errnos, known, failure) != Some(Supported::No),
        known == Supported::Unknown ==> verdict(errnos, known, failure) is Some,
        verdict(errnos, known, failure) != Some(Supported::Unknown),
        verdict(errnos, known, failure) == Some(Supported::No) <==> failure == Some(errnos.enosys),
        verdict(errnos, known, failure) == Some(Supported::Yes) <==> failure != Some(errnos.enosys)
            && known == Supported::Unknown,
{
}

/// A value is read back from its code, and from no other byte. The codes are the bytes up to
/// 2, and every other byte stands for no value.
pub proof fn code_is_read_back(supported: Supported, code: u8)
    ensures
        Supported::from_code(supported.code()) == Some(supported),
        Supported::from_code(code) == Some(supported) <==> code == supported.code(),
        supported.code() <= 2,
        Supported::Unknown.code() == 0,
        Supported::Yes.code() == 1,
        Supported::No.code() == 2,
        Supported::from_code(code) is None <==> code > 2,
{
}

/// The mount ID is unique exactly if the flags hold [`AT_HANDLE_MNT_ID_UNIQUE`]: adding that
/// flag makes it unique, and no other flag has a say in it.
pub proof fn mount_id_follows_its_flag(flags: i32, cell: u64)
    ensures
        flags & AT_HANDLE_MNT_ID_UNIQUE != 0 ==> mount_id(flags, cell) == MountId::Unique(cell),
        flags & AT_HANDLE_MNT_ID_UNIQUE == 0 ==> (mount_id(flags, cell) matches MountId::Reusable(n)
            && n == cell % 0x1_0000_0000),
        mount_id(flags | AT_HANDLE_MNT_ID_UNIQUE, cell) == MountId::Unique(cell),
        mount_id(flags & !AT_HANDLE_MNT_ID_UNIQUE, cell) == MountId::Reusable(
            (cell % 0x1_0000_0000) as u32,
        ),
        mount_id(flags | AT_EMPTY_PATH, cell) == mount_id(flags, cell),
        mount_id(flags | AT_SYMLINK_FOLLOW, cell) == mount_id(flags, cell),
        mount_id(flags | AT_HANDLE_FID, cell) == mount_id(flags, cell),
{
    assert((flags | 0x001) & 0x001 != 0) by (bit_vector);
    assert((flags & !0x001) & 0x001 == 0) by (bit_vector);
    assert((flags | 0x1000) & 0x001 == flags & 0x001) by (bit_vector);
    assert((flags | 0x400) & 0x001 == flags & 0x001) by (bit_vector);
    assert((flags | 0x200) & 0x001 == flags & 0x001) by (bit_vector);
}

/// The flags are told apart by their bits: no two have one in common.
pub proof fn flags_are_disjoint()
    ensures
        AT_SYMLINK_FOLLOW & AT_EMPTY_PATH == 0,
        AT_SYMLINK_FOLLOW & AT_HANDLE_FID == 0,
        AT_SYMLINK_FOLLOW & AT_HANDLE_MNT_ID_UNIQUE == 0,
        AT_EMPTY_PATH & AT_HANDLE_FID == 0,
        AT_EMPTY_PATH & AT_HANDLE_MNT_ID_UNIQUE == 0,
        AT_HANDLE_FID & AT_HANDLE_MNT_ID_UNIQUE == 0,
{
    assert(0x400i32 & 0x1000 == 0 && 0x400i32 & 0x200 == 0 && 0x400i32 & 0x001 == 0) by (bit_vector);
    assert(0x1000i32 & 0x200 == 0 && 0x1000i32 & 0x001 == 0 && 0x200i32 & 0x001 == 0) by (bit_vector);
}

/// A buffer is the smallest of aligned size that has room for the header and all bytes of
/// the handle behind it. Every handle that is not too long to be opened has one.
pub proof fn buffer_has_room(handle_bytes: int, other: int)
    requires
        0 <= handle_bytes,
    ensures
        crate::handle::padded_size(handle_bytes) >= HEADER_SIZE + handle_bytes,
        crate::handle::padded_size(handle_bytes) % HEADER_ALIGN as int == 0,
        other % HEADER_ALIGN as int == 0 && other >= HEADER_SIZE + handle_bytes ==> other
            >= crate::handle::padded_size(handle_bytes),
        handle_bytes <= MAX_OPEN_BYTES ==> crate::handle::has_layout(handle_bytes),
        8 + handle_bytes <= crate::handle::padded_size(handle_bytes) < 8 + handle_bytes + 4,
        crate::handle::padded_size(handle_bytes) % 4 == 0,
        crate::handle::has_layout(handle_bytes) <==> crate::handle::padded_size(handle_bytes)
            <= isize::MAX,
{
}

/// A layout for a handle puts the header's 8 bytes in front, at an address divisible by 4, and
/// has room for every byte of the handle behind them.
pub proof fn layout_has_room(layout: HandleLayout, handle_bytes: int)
    requires
        0 <= handle_bytes,
        layout.holds(handle_bytes),
    ensures
        layout.align == 4,
        layout.offset == 8,
        layout.size % 4 == 0,
        layout.offset + handle_bytes <= layout.size < layout.offset + handle_bytes + 4,
{
}

/// A lookup begins with the directory, the path and the flags that the caller gave, the path
/// followed by one zero, and with a probe.
pub proof fn lookup_begins_as_asked(
    errnos: Errnos,
    known: Supported,
    dirfd: i32,
    path: Seq<u8>,
    flags: i32,
)
    ensures
        ({
            let l = crate::lookup::first_lookup(errnos, known, dirfd, path, flags);
            &&& l.errnos == errnos
            &&& l.known == known
            &&& l.dirfd == dirfd
            &&& l.flags == flags
            &&& l.phase is Probe
            &&& l.path.len() == path.len() + 1
            &&& l.path.last() == 0
            &&& forall|i: int| 0 <= i < path.len() ==> l.path[i] == path[i]
        }),
{
}

/// The call that a lookup repeats is for the same file: only the buffer differs, and that is
/// the one that the kernel asked for.
pub proof fn lookup_keeps_to_its_file(lookup: LookupView, reply: NameReply, next: LookupView)
    requires
        lookup.next(reply) == NameStepView::Again(next),
    ensures
        next.errnos == lookup.errnos,
        next.known == lookup.known,
        next.dirfd == lookup.dirfd,
        next.path == lookup.path,
        next.flags == lookup.flags,
        reply matches NameReply::Failed { errno, header } && errno == lookup.errnos.eoverflow
            && next.header().handle_bytes == header.handle_bytes && next.header().handle_type
            == header.handle_type && next.phase == Phase::Fetch(header),
        lookup.phase is Probe ==> next.header().handle_bytes != 0,
{
}

/// A probe offers no room at all, and a fetch offers the room that the kernel asked for.
pub proof fn lookup_offers_the_room_it_was_told(lookup: LookupView)
    ensures
        lookup.phase is Probe ==> lookup.header().handle_bytes == 0 && lookup.header().handle_type
            == 0,
        lookup.phase matches Phase::Fetch(header) ==> lookup.header().handle_bytes
            == header.handle_bytes && lookup.header().handle_type == header.handle_type,
{
}

/// A failed call is made again exactly if the buffer was too small and, for a probe, a size
/// was told. Otherwise the lookup fails with the kernel's own error number.
pub proof fn failure_is_repeated_or_returned(lookup: LookupView, errno: i32, header: HandleHeader)
    ensures
        ({
            let step = lookup.next(NameReply::Failed { errno, header });
            let too_small = errno == lookup.errnos.eoverflow && (lookup.phase is Probe
                ==> header.handle_bytes != 0);
            &&& step is Again <==> too_small
            &&& !too_small ==> step == NameStepView::Done(
                Err::<(FileHandleView, MountId), i32>(errno),
            )
        }),
{
}

/// A filled buffer is the result: a handle of the type that the kernel gave, with the bytes
/// that the kernel gave, as many as it said, and the mount ID by its flag.
pub proof fn filled_buffer_is_the_result(
    lookup: LookupView,
    header: HandleHeader,
    payload: Vec<u8>,
    mount_cell: u64,
)
    requires
        header.handle_bytes <= payload@.len(),
    ensures
        ({
            let step = lookup.next(NameReply::Filled { header, payload, mount_cell });
            &&& step matches NameStepView::Done(Ok((handle, id)))
            &&& handle.handle_type == header.handle_type
            &&& handle.handle.len() == header.handle_bytes
            &&& forall|i: int| 0 <= i < header.handle_bytes ==> handle.handle[i] == payload@[i]
            &&& lookup.flags & AT_HANDLE_MNT_ID_UNIQUE != 0 ==> id == MountId::Unique(mount_cell)
            &&& lookup.flags & AT_HANDLE_MNT_ID_UNIQUE == 0 ==> (id matches MountId::Reusable(n)
                && n == mount_cell % 0x1_0000_0000)
        }),
{
}

/// A reply cannot come from the kernel exactly if it fills a buffer that had no room, or
/// another room than was offered, or more than there was room for, or if it asks for a buffer
/// larger than any can be.
pub proof fn impossible_replies(
    lookup: LookupView,
    errno: i32,
    header: HandleHeader,
    payload: Vec<u8>,
    mount_cell: u64,
)
    ensures
        lookup.accepts(NameReply::Filled { header, payload, mount_cell }) <==> (lookup.phase
            matches Phase::Fetch(room) && payload@.len() == room.handle_bytes
            && header.handle_bytes <= room.handle_bytes),
        !lookup.accepts(NameReply::Failed { errno, header }) ==> errno == lookup.errnos.eoverflow
            && 8 + header.handle_bytes + 3 > isize::MAX,
        lookup.accepts(NameReply::Failed { errno, header }) && lookup.next(
            NameReply::Failed { errno, header },
        ) is Again ==> 8 + header.handle_bytes <= isize::MAX,
{
}

/// The reply to a probe makes the call count as missing exactly if the kernel said `ENOSYS`;
/// any other reply shows that the kernel has the call, which is written down if it was not
/// known.
pub proof fn probe_teaches_what_the_kernel_said(lookup: LookupView, reply: NameReply)
    requires
        lookup.phase is Probe,
    ensures
        lookup.verdict(reply) == Some(Supported::No) <==> (reply matches NameReply::Failed {
            errno,
            ..
        } && errno == lookup.errnos.enosys),
        lookup.verdict(reply) != Some(Supported::No) ==> lookup.verdict(reply) == if lookup.known
            == Supported::Unknown {
            Some(Supported::Yes)
        } else {
            None
        },
{
}

/// A fetch teaches nothing about the call.
pub proof fn fetch_teaches_nothing(lookup: LookupView, reply: NameReply)
    requires
        lookup.phase is Fetch,
    ensures
        lookup.verdict(reply) is None,
{
}

/// The header that goes to the kernel with a handle has the handle's type and length.
pub proof fn header_describes_its_handle(handle: FileHandleView)
    requires
        handle.handle.len() <= u32::MAX,
    ensures
        crate::opening::header_of(handle).handle_type == handle.handle_type,
        crate::opening::header_of(handle).handle_bytes == handle.handle.len(),
{
}

/// Handles of different types or lengths never go to the kernel under one header.
pub proof fn headers_tell_types_and_lengths_apart(a: FileHandleView, b: FileHandleView)
    requires
        a.handle.len() <= u32::MAX,
        b.handle.len() <= u32::MAX,
    ensures
        crate::opening::header_of(a) == crate::opening::header_of(b) <==> a.handle_type
            == b.handle_type && a.handle.len() == b.handle.len(),
{
}

/// An opening is refused before any call exactly if the call is known to be missing, with
/// `ENOSYS`, or else if the handle has more than 65535 bytes, with `EINVAL`. A lookup is
/// refused exactly if the call is known to be missing, with `ENOSYS`.
pub proof fn refusals(errnos: Errnos, known: Supported, handle: FileHandleView)
    ensures
        crate::opening::refusal(errnos, known, handle) is None <==> known != Supported::No
            && handle.handle.len() <= 65535,
        known == Supported::No ==> crate::opening::refusal(errnos, known, handle) == Some(
            errnos.enosys,
        ),
        known != Supported::No && handle.handle.len() > 65535 ==> crate::opening::refusal(
            errnos,
            known,
            handle,
        ) == Some(errnos.einval),
        crate::supported::known_missing(errnos, known) is None <==> known != Supported::No,
        known == Supported::No ==> crate::supported::known_missing(errnos, known) == Some(
            errnos.enosys,
        ),
{
}

/// Two handles are equal exactly if they have the same type and the same bytes, every one of
/// them.
pub proof fn handles_are_equal_by_type_and_bytes(a: FileHandle, b: FileHandle)
    ensures
        vstd::std_specs::cmp::PartialEqSpec::eq_spec(&a, &b) <==> {
            &&& a.handle_type == b.handle_type
            &&& a.handle@.len() == b.handle@.len()
            &&& forall|i: int| 0 <= i < a.handle@.len() ==> a.handle@[i] == b.handle@[i]
        },
{
    if a.handle@.len() == b.handle@.len() && (forall|i: int|
        0 <= i < a.handle@.len() ==> a.handle@[i] == b.handle@[i]) {
        assert(a.handle@ =~= b.handle@);
    }
}

/// The view of a handle is its type and its bytes, and what a step says is what it holds.
pub proof fn views_leave_nothing_out(handle: FileHandle, id: MountId, errno: i32, lookup: Lookup)
    ensures
        handle@.handle_type == handle.handle_type,
        handle@.handle == handle.handle@,
        NameStep::Done(Ok((handle, id)))@ == NameStepView::Done(Ok((handle@, id))),
        NameStep::Done(Err(errno))@ == NameStepView::Done(Err(errno)),
        NameStep::Again(lookup)@ == NameStepView::Again(lookup@),
{
}

/// What a reply says of its failure and of its header is what the kernel left.
pub proof fn replies_say_what_they_hold(
    errno: i32,
    header: HandleHeader,
    payload: Vec<u8>,
    mount_cell: u64,
)
    ensures
        (NameReply::Failed { errno, header }).failure() == Some(errno),
        (NameReply::Failed { errno, header }).header() == header,
        (NameReply::Filled { header, payload, mount_cell }).failure() is None,
        (NameReply::Filled { header, payload, mount_cell }).header() == header,
{
}

/// The number that is compared with -1 is the integer itself, in every width.
pub proof fn integers_are_their_numbers(a: i8, b: i16, c: i32, d: i64, e: isize)
    ensures
        a.number() == a,
        b.number() == b,
        c.number() == c,
        d.number() == d,
        e.number() == e,
{
}

/// The code of a failed call is the number of an error that the C library reported last, and
/// an error that has a code gives it when asked.
pub proof fn codes_come_from_the_last_error(code: i32, error: std::io::Error, asked: Option<i32>)
    ensures
        crate::cvt::is_last_code(code) ==> exists|e: std::io::Error|
            call_ensures(std::io::Error::last_os_error, (), e) && #[trigger] call_ensures(
                std::io::Error::raw_os_error,
                (&e,),
                Some(code),
            ),
        crate::cvt::has_code(error) && call_ensures(
            std::io::Error::raw_os_error,
            (&error,),
            asked,
        ) ==> asked is Some,
{
}

/// On Linux the three error numbers are positive and no two are alike, so that a missing call,
/// a buffer that is too small and an invalid handle are never mistaken for each other.
pub proof fn error_numbers_are_distinct(errnos: Errnos)
    requires
        errnos.is_linux(),
    ensures
        0 < errnos.einval < errnos.enosys,
        errnos.enosys != errnos.eoverflow,
        errnos.einval < errnos.eoverflow,
        errnos.einval == 22,
        errnos.enosys == 38 || errnos.enosys == 89 || errnos.enosys == 90,
        errnos.eoverflow == 75 || errnos.eoverflow == 79 || errnos.eoverflow == 92,
{
}

} // verus!
