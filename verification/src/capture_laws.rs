//! What holds of the capture over any sequence of frames.

use crate::capture_model::{
    carries_fd, is_plain, same_size, CaptureAction, CaptureEvent, CaptureGate, CaptureNext,
    CaptureState, ConvertPhase, DmabufDesc, MAX_FBS, MAX_POOL,
};
use crate::error::JetsonError;
use crate::search::{
    filter_keeps_part, filter_of_accepted, first_is_first_where, first_where, first_where_is_first,
    none_is_first_where,
};
use crate::surface::{import_plan, AllocRequest, ConvertRequest, JetsonSurface};
use vstd::prelude::*;

verus! {

/// A capture that has seen nothing is well-formed.
pub proof fn empty_is_wf()
    ensures
        CaptureState::empty().wf(),
{
}

proof fn learn_keeps_known(s: CaptureState, id: u32, fd: i32)
    requires
        s.well_kept(),
    ensures
        s.learn(id, fd).order.no_duplicates(),
        forall|x: u32| #[trigger]
            s.learn(id, fd).order.contains(x) <==> s.learn(id, fd).fds.contains_key(x),
{
    let t = s.learn(id, fd);
    if !s.fds.contains_key(id) {
        assert(!s.order.contains(id));
        assert(t.order[s.order.len() as int] == id);
        assert forall|x: u32| #[trigger] t.order.contains(x) <==> t.fds.contains_key(x) by {
            if s.order.contains(x) {
                let i = choose|i: int| 0 <= i < s.order.len() && s.order[i] == x;
                assert(t.order[i] == x);
            }
            if t.order.contains(x) && x != id {
                let i = choose|i: int| 0 <= i < t.order.len() && t.order[i] == x;
                assert(s.order[i] == x);
            }
        }
    } else {
        assert(s.order.contains(id));
        assert forall|x: u32| #[trigger] t.order.contains(x) <==> t.fds.contains_key(x) by {
            assert(s.order.contains(x) <==> s.fds.contains_key(x));
        }
    }
}

/// Noting a frame keeps the capture well-formed.
pub proof fn note_keeps_wf(s: CaptureState, desc: DmabufDesc, received_fd: i32, dup: Option<i32>)
    requires
        s.wf(),
        s.phase is Idle,
    ensures
        s.note(desc, received_fd, dup).wf(),
{
    if carries_fd(desc, received_fd) && dup is Some {
        let t = s.learn(desc.fb_id, dup->0);
        learn_keeps_known(s, desc.fb_id, dup->0);
        assert(t.pool == s.pool);
        if t.order.len() > MAX_FBS {
            let u = t.evict();
            let old_id = t.order[0];
            assert(u.pool == s.pool);
            assert forall|x: u32| #[trigger] u.order.contains(x) <==> u.fds.contains_key(x) by {
                if u.order.contains(x) {
                    let i = choose|i: int| 0 <= i < u.order.len() && u.order[i] == x;
                    assert(t.order[i + 1] == x);
                    assert(t.order.contains(x));
                }
                if u.fds.contains_key(x) {
                    assert(t.order.contains(x));
                    let i = choose|i: int| 0 <= i < t.order.len() && t.order[i] == x;
                    assert(u.order[i - 1] == x);
                }
            }
            assert(u.order.no_duplicates());
        }
    }
}

proof fn look_keeps_wf(s: CaptureState, desc: DmabufDesc)
    requires
        s.well_kept(),
        s.imports.contains_key(desc.fb_id),
    ensures
        s.look_for_surface(desc).0.wf(),
{
    let p = |x: JetsonSurface| same_size(desc, x);
    let t = s.look_for_surface(desc).0;
    filter_keeps_part(s.pool, p);
    assert forall|i: int| 0 <= i < t.pool.len() implies (#[trigger] t.pool[i]).nv12 && same_size(
        desc,
        t.pool[i],
    ) by {
        assert(s.pool.contains(s.pool.filter(p)[i]));
        assert(p(s.pool.filter(p)[i]));
    }
}

/// A conversion keeps the capture well-formed as it begins.
pub proof fn begin_keeps_wf(s: CaptureState, desc: DmabufDesc, transform: i32, wanted: bool)
    requires
        s.wf(),
        s.phase is Idle,
    ensures
        s.begin(desc, transform, wanted).0.wf(),
{
    if s.imports.contains_key(desc.fb_id) {
        look_keeps_wf(s, desc);
    }
}

/// Every outcome keeps the capture well-formed.
pub proof fn next_keeps_wf(s: CaptureState, event: CaptureEvent)
    requires
        s.wf(),
        s.accepts(event),
    ensures
        s.next(event).0.wf(),
{
    match (s.phase, event) {
        (ConvertPhase::Import(desc, request), CaptureEvent::Import(handle)) => {
            if handle != 0 {
                let x = request.outcome(handle)->Ok_0;
                let t = CaptureState { imports: s.imports.insert(desc.fb_id, x), ..s };
                assert(t.well_kept());
                look_keeps_wf(t, desc);
            }
        },
        (ConvertPhase::Count(desc), CaptureEvent::Count(refs)) => {
            first_where_is_first(refs@, |n: usize| n == 1);
        },
        (ConvertPhase::Alloc(desc), CaptureEvent::Alloc(handle)) => {
            if handle != 0 {
                let x = CaptureState::pool_request(desc).outcome(handle)->Ok_0;
                let t = CaptureState { pool: s.pool.push(x), ..s };
                assert(t.pool[s.pool.len() as int] == x);
                assert forall|i: int| 0 <= i < t.pool.len() implies same_size(
                    desc,
                    #[trigger] t.pool[i],
                ) && t.pool[i].nv12 by {
                    if i < s.pool.len() {
                        assert(t.pool[i] == s.pool[i]);
                    }
                }
                assert(t.well_kept());
            }
        },
        _ => {},
    }
}

/// A suspended gate stays shut whatever the encoder takes, and `resume` gives back what was
/// last wanted.
pub proof fn suspension_hides_what_is_wanted(gate: CaptureGate, on: bool)
    ensures
        !(CaptureGate { suspended: true, wanted: on }).open(),
        (CaptureGate { suspended: false, ..gate }).open() == gate.wanted,
{
}

/// A framebuffer that was not known is learnt with its descriptor. Only the one known longest
/// is forgotten for it, and only where there are too many; all others keep what is known of
/// them.
pub proof fn oldest_framebuffer_goes_first(
    s: CaptureState,
    desc: DmabufDesc,
    received_fd: i32,
    dup: i32,
)
    requires
        s.wf(),
        s.phase is Idle,
        carries_fd(desc, received_fd),
        !s.fds.contains_key(desc.fb_id),
    ensures
        ({
            let t = s.note(desc, received_fd, Some(dup));
            let full = s.order.len() == MAX_FBS;
            &&& t.fds.contains_key(desc.fb_id)
            &&& t.fds[desc.fb_id] == dup
            &&& t.order == (if full {
                s.order.drop_first()
            } else {
                s.order
            }).push(desc.fb_id)
            &&& full ==> !t.fds.contains_key(s.order[0]) && !t.imports.contains_key(s.order[0])
                && !t.gl_seen.contains(s.order[0])
            &&& forall|id: u32|
                id != desc.fb_id && !(full && id == s.order[0]) ==> {
                    &&& #[trigger] t.fds.contains_key(id) == s.fds.contains_key(id)
                    &&& t.fds.contains_key(id) ==> t.fds[id] == s.fds[id]
                    &&& t.imports.contains_key(id) == s.imports.contains_key(id)
                    &&& t.imports.contains_key(id) ==> t.imports[id] == s.imports[id]
                    &&& t.gl_seen.contains(id) == s.gl_seen.contains(id)
                }
        }),
{
    let t = s.note(desc, received_fd, Some(dup));
    if s.order.len() == MAX_FBS {
        assert(s.order.contains(s.order[0]));
        assert(s.learn(desc.fb_id, dup).order[0] == s.order[0]);
        assert(t.order =~= s.order.drop_first().push(desc.fb_id));
    }
}

/// A new descriptor for a known framebuffer takes the place of the old one and makes both paths
/// import it anew. The framebuffer keeps its place in the order, and all others keep what is
/// known of them.
pub proof fn new_descriptor_is_a_new_buffer(
    s: CaptureState,
    desc: DmabufDesc,
    received_fd: i32,
    dup: i32,
)
    requires
        s.wf(),
        s.phase is Idle,
        carries_fd(desc, received_fd),
        s.fds.contains_key(desc.fb_id),
    ensures
        s.note(desc, received_fd, Some(dup)) == (CaptureState {
            fds: s.fds.insert(desc.fb_id, dup),
            imports: s.imports.remove(desc.fb_id),
            gl_seen: s.gl_seen.remove(desc.fb_id),
            ..s
        }),
{
}

/// The other path is handed the kept descriptor of a framebuffer once: it has it from then on,
/// until a new one is noted, which it is handed in turn.
pub proof fn kept_descriptor_is_handed_out_once(s: CaptureState, desc: DmabufDesc, none: i32)
    requires
        s.wf(),
        s.fds.contains_key(desc.fb_id),
        !s.gl_seen.contains(desc.fb_id),
        none < 0,
    ensures
        s.gl_fd(desc, none).1 == s.fds[desc.fb_id],
        s.gl_fd(desc, none).0.gl_fd(desc, none).1 == none,
        forall|received_fd: i32, dup: i32|
            s.phase is Idle && carries_fd(desc, received_fd) ==> (#[trigger] s.gl_fd(
                desc,
                none,
            ).0.note(desc, received_fd, Some(dup))).gl_fd(desc, none).1 == dup,
{
}

/// A descriptor that came with the frame is handed on as it is.
pub proof fn received_descriptor_is_handed_on(s: CaptureState, desc: DmabufDesc, received_fd: i32)
    requires
        received_fd >= 0,
    ensures
        s.gl_fd(desc, received_fd).1 == received_fd,
        s.gl_fd(desc, received_fd).0.gl_seen.contains(desc.fb_id),
{
}

/// After a failure every frame takes the other path, at once and for good.
pub proof fn failure_is_final(
    s: CaptureState,
    desc: DmabufDesc,
    transform: i32,
    wanted: bool,
    received_fd: i32,
    dup: Option<i32>,
)
    requires
        s.wf(),
        s.phase is Idle,
        s.failed,
    ensures
        s.begin(desc, transform, wanted) == (
            s,
            CaptureAction::Done(Ok::<Option<JetsonSurface>, JetsonError>(None)),
        ),
        s.note(desc, received_fd, dup).failed,
        s.gl_fd(desc, received_fd).0.failed,
{
    assert(s.begin(desc, transform, wanted).0 =~= s);
}

/// A frame that is not wanted, not plain or of an unknown framebuffer takes the other path, and
/// the capture stays as it was.
pub proof fn declined_frame_changes_nothing(
    s: CaptureState,
    desc: DmabufDesc,
    transform: i32,
    wanted: bool,
)
    requires
        s.wf(),
        s.phase is Idle,
        !wanted || !is_plain(desc, transform) || !s.fds.contains_key(desc.fb_id),
    ensures
        s.begin(desc, transform, wanted) == (
            s,
            CaptureAction::Done(Ok::<Option<JetsonSurface>, JetsonError>(None)),
        ),
{
    assert(s.begin(desc, transform, wanted).0 =~= s);
}

/// Where the outcomes `events` lead from the step `start`.
pub open spec fn after(start: CaptureNext, events: Seq<CaptureEvent>) -> CaptureNext
    decreases events.len(),
{
    if events.len() == 0 {
        start
    } else {
        after(start, events.drop_last()).0.next(events.last())
    }
}

/// Each of `events` is the outcome of what was asked when it came.
pub open spec fn answers(start: CaptureNext, events: Seq<CaptureEvent>) -> bool
    decreases events.len(),
{
    events.len() == 0 || {
        &&& answers(start, events.drop_last())
        &&& after(start, events.drop_last()).0.accepts(events.last())
    }
}

/// `end` is where the conversion of a frame has come to after the outcomes `events`.
pub open spec fn conversion(
    s: CaptureState,
    desc: DmabufDesc,
    transform: i32,
    wanted: bool,
    events: Seq<CaptureEvent>,
    end: CaptureNext,
) -> bool {
    &&& s.wf()
    &&& s.phase is Idle
    &&& answers(s.begin(desc, transform, wanted), events)
    &&& end == after(s.begin(desc, transform, wanted), events)
}

/// What links a state within a conversion to the state `s` before it.
spec fn linked(
    s: CaptureState,
    desc: DmabufDesc,
    transform: i32,
    wanted: bool,
    now: CaptureNext,
) -> bool {
    let t = now.0;
    &&& now.1 == CaptureAction::Done(Ok::<Option<JetsonSurface>, JetsonError>(None)) || {
        &&& wanted
        &&& is_plain(desc, transform)
        &&& s.fds.contains_key(desc.fb_id)
        &&& !s.failed
    }
    &&& t.wf()
    &&& t.fds == s.fds
    &&& t.order == s.order
    &&& t.gl_seen == s.gl_seen
    &&& forall|id: u32|
        id != desc.fb_id ==> {
            &&& #[trigger] t.imports.contains_key(id) == s.imports.contains_key(id)
            &&& t.imports.contains_key(id) ==> t.imports[id] == s.imports[id]
        }
    &&& s.imports.contains_key(desc.fb_id) ==> t.imports == s.imports
    &&& match t.phase {
        ConvertPhase::Idle => {
            &&& now.1 is Done
            &&& match now.1->Done_0 {
                Ok(Some(frame)) => {
                    &&& t.imports.contains_key(desc.fb_id)
                    &&& t.pool.contains(frame)
                    &&& frame.is_frame(desc.width as usize, desc.height as usize)
                    &&& t.failed == s.failed
                },
                Ok(None) => t.failed == s.failed,
                Err(_) => t.failed && !s.failed,
            }
        },
        ConvertPhase::Dup(d) => {
            &&& d == desc
            &&& now.1 == (CaptureAction::Dup { fd: s.fds[desc.fb_id] })
            &&& !s.imports.contains_key(desc.fb_id)
        },
        ConvertPhase::Import(d, request) => {
            &&& d == desc
            &&& now.1 == CaptureAction::Import(request)
            &&& CaptureState::import_request(desc) == Ok::<_, JetsonError>(request)
            &&& !s.imports.contains_key(desc.fb_id)
        },
        ConvertPhase::Count(d) => d == desc && now.1 is Count,
        ConvertPhase::Alloc(d) => d == desc && now.1 == CaptureAction::Alloc(
            CaptureState::pool_request(desc),
        ),
        ConvertPhase::Convert(dst) => {
            &&& t.imports.contains_key(desc.fb_id)
            &&& t.pool.contains(dst)
            &&& dst.is_frame(desc.width as usize, desc.height as usize)
            &&& now.1 == CaptureAction::Convert(
                ConvertRequest { src: t.imports[desc.fb_id].handle, dst: dst.handle },
            )
        },
    }
    &&& !(t.phase is Idle) ==> !t.failed && !s.failed
}

proof fn conversion_is_linked(
    s: CaptureState,
    desc: DmabufDesc,
    transform: i32,
    wanted: bool,
    events: Seq<CaptureEvent>,
    end: CaptureNext,
)
    requires
        conversion(s, desc, transform, wanted, events, end),
    ensures
        linked(s, desc, transform, wanted, end),
    decreases events.len(),
{
    let start = s.begin(desc, transform, wanted);
    begin_keeps_wf(s, desc, transform, wanted);
    if events.len() > 0 {
        let front = events.drop_last();
        let mid = after(start, front);
        conversion_is_linked(s, desc, transform, wanted, front, mid);
        next_keeps_wf(mid.0, events.last());
        if let CaptureEvent::Count(refs) = events.last() {
            first_where_is_first(refs@, |n: usize| n == 1);
        }
        if mid.0.phase is Alloc && events.last()->Alloc_0 != 0 {
            let x = CaptureState::pool_request(desc).outcome(events.last()->Alloc_0)->Ok_0;
            assert(mid.0.pool.push(x)[mid.0.pool.len() as int] == x);
        }
    }
}

/// A conversion keeps the capture well-formed, and changes nothing of what is known but the
/// import of its own framebuffer.
pub proof fn conversion_keeps_what_is_known(
    s: CaptureState,
    desc: DmabufDesc,
    transform: i32,
    wanted: bool,
    events: Seq<CaptureEvent>,
    end: CaptureNext,
)
    requires
        conversion(s, desc, transform, wanted, events, end),
    ensures
        end.0.wf(),
        end.0.fds == s.fds,
        end.0.order == s.order,
        end.0.gl_seen == s.gl_seen,
        forall|id: u32|
            id != desc.fb_id ==> {
                &&& #[trigger] end.0.imports.contains_key(id) == s.imports.contains_key(id)
                &&& end.0.imports.contains_key(id) ==> end.0.imports[id] == s.imports[id]
            },
        end.0.phase is Idle <==> end.1 is Done,
{
    conversion_is_linked(s, desc, transform, wanted, events, end);
}

/// The capture has failed exactly if it had before or this conversion does; a frame that merely
/// takes the other path is no failure.
pub proof fn failure_is_remembered(
    s: CaptureState,
    desc: DmabufDesc,
    transform: i32,
    wanted: bool,
    events: Seq<CaptureEvent>,
    end: CaptureNext,
)
    requires
        conversion(s, desc, transform, wanted, events, end),
        end.1 is Done,
    ensures
        end.0.failed == (s.failed || end.1->Done_0 is Err),
{
    conversion_is_linked(s, desc, transform, wanted, events, end);
}

/// A frame that comes out was wanted and plain, and is an NV12 surface of the scanout's size
/// that the capture keeps. Its framebuffer is imported, so that its next frame is converted
/// without another import.
pub proof fn converted_frame_is_sound(
    s: CaptureState,
    desc: DmabufDesc,
    transform: i32,
    wanted: bool,
    events: Seq<CaptureEvent>,
    end: CaptureNext,
    frame: JetsonSurface,
)
    requires
        conversion(s, desc, transform, wanted, events, end),
        end.1 == CaptureAction::Done(Ok::<_, JetsonError>(Some(frame))),
    ensures
        frame.is_frame(desc.width as usize, desc.height as usize),
        end.0.pool.contains(frame),
        end.0.holds(frame.handle),
        end.0.imports.contains_key(desc.fb_id),
        wanted && is_plain(desc, transform) && s.fds.contains_key(desc.fb_id) && !end.0.failed,
        end.0.begin(desc, transform, wanted).1 is Count,
{
    conversion_is_linked(s, desc, transform, wanted, events, end);
    let i = choose|i: int| 0 <= i < end.0.pool.len() && end.0.pool[i] == frame;
    assert(end.0.pool[i].handle == frame.handle);
}

/// A frame never overwrites a surface that is in use downstream: it is converted into one to
/// which only the pool refers, unless that one has just been allocated.
pub proof fn conversion_spares_surfaces_in_use(
    s: CaptureState,
    desc: DmabufDesc,
    transform: i32,
    wanted: bool,
    events: Seq<CaptureEvent>,
    end: CaptureNext,
    request: ConvertRequest,
)
    requires
        conversion(s, desc, transform, wanted, events, end),
        end.1 == CaptureAction::Convert(request),
    ensures
        events.len() > 0,
        events.last() is Count || events.last() is Alloc,
        events.last() is Count ==> exists|i: int|
            0 <= i < end.0.pool.len() && (#[trigger] end.0.pool[i]).handle == request.dst
                && events.last()->Count_0@[i] == 1,
        events.last() is Alloc ==> events.last()->Alloc_0 == request.dst,
{
    let start = s.begin(desc, transform, wanted);
    let front = events.drop_last();
    let mid = after(start, front);
    assert(mid.0.accepts(events.last()));
    if let CaptureEvent::Count(refs) = events.last() {
        first_where_is_first(refs@, |n: usize| n == 1);
        let i = first_where(refs@, |n: usize| n == 1)->0;
        assert(end.0.pool[i].handle == request.dst);
    }
}

/// Where every surface of a full pool is in use, the frame is dropped: nothing is allocated,
/// nothing fails, and what is known stays.
pub proof fn frame_is_dropped_when_all_are_in_use(
    s: CaptureState,
    desc: DmabufDesc,
    refs: Vec<usize>,
)
    requires
        s.wf(),
        s.phase == ConvertPhase::Count(desc),
        refs@.len() == s.pool.len(),
        s.pool.len() == MAX_POOL,
        forall|i: int| 0 <= i < refs@.len() ==> (#[trigger] refs@[i]) != 1,
    ensures
        s.next(CaptureEvent::Count(refs)) == (
            CaptureState { phase: ConvertPhase::Idle, ..s },
            CaptureAction::Done(Ok::<Option<JetsonSurface>, JetsonError>(None)),
        ),
{
    first_where_is_first(refs@, |n: usize| n == 1);
}

proof fn one_more_outcome(start: CaptureNext, events: Seq<CaptureEvent>, event: CaptureEvent)
    ensures
        after(start, events.push(event)) == after(start, events).0.next(event),
        answers(start, events.push(event)) == (answers(start, events) && after(
            start,
            events,
        ).0.accepts(event)),
{
    assert(events.push(event).drop_last() =~= events);
}

/// Where everything asked for is done, a wanted, plain frame of a known framebuffer in a layout
/// that can be imported comes out, converted into the surface that was allocated for it. The
/// pool is empty before, and so has no surface of the size.
pub proof fn willing_device_converts_the_first_frame(
    s: CaptureState,
    desc: DmabufDesc,
    words: String,
    import_handle: usize,
    refs: Vec<usize>,
    handle: usize,
)
    requires
        s.wf(),
        s.phase is Idle,
        !s.failed,
        is_plain(desc, 0),
        s.fds.contains_key(desc.fb_id),
        !s.imports.contains_key(desc.fb_id),
        s.pool.len() == 0,
        CaptureState::import_request(desc) is Ok,
        import_handle != 0,
        refs@.len() == 0,
        handle != 0,
    ensures
        ({
            let start = s.begin(desc, 0, true);
            let events = seq![
                CaptureEvent::Dup { ok: true, os_error: words },
                CaptureEvent::Import(import_handle),
                CaptureEvent::Count(refs),
                CaptureEvent::Alloc(handle),
                CaptureEvent::Convert(0),
            ];
            let frame = JetsonSurface {
                handle,
                width: desc.width as usize,
                height: desc.height as usize,
                nv12: true,
            };
            &&& answers(start, events)
            &&& after(start, events).1 == CaptureAction::Done(Ok::<_, JetsonError>(Some(frame)))
            &&& after(start, events).0.pool == seq![frame]
        }),
{
    let start = s.begin(desc, 0, true);
    let frame = JetsonSurface {
        handle,
        width: desc.width as usize,
        height: desc.height as usize,
        nv12: true,
    };
    let e0 = Seq::<CaptureEvent>::empty();
    let e1 = e0.push(CaptureEvent::Dup { ok: true, os_error: words });
    one_more_outcome(start, e0, CaptureEvent::Dup { ok: true, os_error: words });
    let e2 = e1.push(CaptureEvent::Import(import_handle));
    one_more_outcome(start, e1, CaptureEvent::Import(import_handle));
    let t2 = after(start, e2).0;
    filter_keeps_part(s.pool, |x: JetsonSurface| same_size(desc, x));
    assert(t2.pool =~= Seq::empty());
    let e3 = e2.push(CaptureEvent::Count(refs));
    one_more_outcome(start, e2, CaptureEvent::Count(refs));
    first_where_is_first(refs@, |n: usize| n == 1);
    let e4 = e3.push(CaptureEvent::Alloc(handle));
    one_more_outcome(start, e3, CaptureEvent::Alloc(handle));
    let t4 = after(start, e4).0;
    assert(t4.pool =~= seq![frame]);
    let e5 = e4.push(CaptureEvent::Convert(0));
    one_more_outcome(start, e4, CaptureEvent::Convert(0));
    assert(e5 =~= seq![
        CaptureEvent::Dup { ok: true, os_error: words },
        CaptureEvent::Import(import_handle),
        CaptureEvent::Count(refs),
        CaptureEvent::Alloc(handle),
        CaptureEvent::Convert(0),
    ]);
}

/// Where everything asked for is done, a wanted, plain frame of an imported framebuffer that
/// has kept its size comes out, converted into the first surface of the pool that is free.
pub proof fn willing_device_converts_into_a_free_surface(
    s: CaptureState,
    desc: DmabufDesc,
    refs: Vec<usize>,
    i: int,
)
    requires
        s.wf(),
        s.phase is Idle,
        !s.failed,
        is_plain(desc, 0),
        s.imports.contains_key(desc.fb_id),
        same_size(desc, s.imports[desc.fb_id]),
        s.pool_fits(desc),
        refs@.len() == s.pool.len(),
        0 <= i < refs@.len(),
        refs@[i] == 1,
        forall|j: int| 0 <= j < i ==> (#[trigger] refs@[j]) != 1,
    ensures
        ({
            let start = s.begin(desc, 0, true);
            let events = seq![CaptureEvent::Count(refs), CaptureEvent::Convert(0)];
            &&& answers(start, events)
            &&& after(start, events) == (
                s,
                CaptureAction::Done(Ok::<_, JetsonError>(Some(s.pool[i]))),
            )
        }),
{
    let start = s.begin(desc, 0, true);
    filter_of_accepted(s.pool, |x: JetsonSurface| same_size(desc, x));
    first_is_first_where(refs@, |n: usize| n == 1, i);
    let e0 = Seq::<CaptureEvent>::empty();
    let e1 = e0.push(CaptureEvent::Count(refs));
    one_more_outcome(start, e0, CaptureEvent::Count(refs));
    let e2 = e1.push(CaptureEvent::Convert(0));
    one_more_outcome(start, e1, CaptureEvent::Convert(0));
    assert(after(start, e2).0 =~= s);
    assert(e2 =~= seq![CaptureEvent::Count(refs), CaptureEvent::Convert(0)]);
}

/// Where everything asked for is done, a wanted, plain frame of an imported framebuffer that
/// has kept its size comes out also where every surface is in use but the pool is not full:
/// converted into a surface that is allocated for it and joins the pool.
pub proof fn willing_device_converts_into_a_new_surface(
    s: CaptureState,
    desc: DmabufDesc,
    refs: Vec<usize>,
    handle: usize,
)
    requires
        s.wf(),
        s.phase is Idle,
        !s.failed,
        is_plain(desc, 0),
        s.imports.contains_key(desc.fb_id),
        same_size(desc, s.imports[desc.fb_id]),
        s.pool_fits(desc),
        s.pool.len() < MAX_POOL,
        refs@.len() == s.pool.len(),
        forall|j: int| 0 <= j < refs@.len() ==> (#[trigger] refs@[j]) != 1,
        handle != 0,
    ensures
        ({
            let start = s.begin(desc, 0, true);
            let events = seq![
                CaptureEvent::Count(refs),
                CaptureEvent::Alloc(handle),
                CaptureEvent::Convert(0),
            ];
            let frame = JetsonSurface {
                handle,
                width: desc.width as usize,
                height: desc.height as usize,
                nv12: true,
            };
            &&& answers(start, events)
            &&& after(start, events) == (
                CaptureState { pool: s.pool.push(frame), ..s },
                CaptureAction::Done(Ok::<_, JetsonError>(Some(frame))),
            )
        }),
{
    let start = s.begin(desc, 0, true);
    let frame = CaptureState::pool_request(desc).outcome(handle)->Ok_0;
    filter_of_accepted(s.pool, |x: JetsonSurface| same_size(desc, x));
    first_where_is_first(refs@, |n: usize| n == 1);
    let e0 = Seq::<CaptureEvent>::empty();
    let e1 = e0.push(CaptureEvent::Count(refs));
    one_more_outcome(start, e0, CaptureEvent::Count(refs));
    let e2 = e1.push(CaptureEvent::Alloc(handle));
    one_more_outcome(start, e1, CaptureEvent::Alloc(handle));
    let e3 = e2.push(CaptureEvent::Convert(0));
    one_more_outcome(start, e2, CaptureEvent::Convert(0));
    assert(after(start, e3).0 =~= (CaptureState { pool: s.pool.push(frame), ..s }));
    assert(e3 =~= seq![
        CaptureEvent::Count(refs),
        CaptureEvent::Alloc(handle),
        CaptureEvent::Convert(0),
    ]);
}

/// Everything that the conversion asks for in the state `t` is done: `event` is no failure, and
/// there is a surface to convert into, because one is free or another may be allocated.
pub open spec fn goes_well(t: CaptureState, event: CaptureEvent) -> bool {
    match event {
        CaptureEvent::Dup { ok, os_error } => ok,
        CaptureEvent::Import(handle) => handle != 0,
        CaptureEvent::Count(refs) => t.pool.len() < MAX_POOL || refs@.contains(1),
        CaptureEvent::Alloc(handle) => handle != 0,
        CaptureEvent::Convert(status) => status == 0,
    }
}

/// Everything that the conversion asks for is done.
pub open spec fn all_goes_well(start: CaptureNext, events: Seq<CaptureEvent>) -> bool
    decreases events.len(),
{
    events.len() == 0 || {
        &&& all_goes_well(start, events.drop_last())
        &&& goes_well(after(start, events.drop_last()).0, events.last())
    }
}

/// The frame can be converted: it is plain, and its framebuffer is known and either imported at
/// this size or in a layout that can be imported.
pub open spec fn convertible(s: CaptureState, desc: DmabufDesc, transform: i32) -> bool {
    &&& is_plain(desc, transform)
    &&& s.fds.contains_key(desc.fb_id)
    &&& if s.imports.contains_key(desc.fb_id) {
        same_size(desc, s.imports[desc.fb_id])
    } else {
        CaptureState::import_request(desc) is Ok
    }
}

/// The conversion has not failed, and source and destination have the same size.
spec fn on_course(desc: DmabufDesc, now: CaptureNext) -> bool {
    match now.0.phase {
        ConvertPhase::Idle => now.1 is Done && now.1->Done_0 is Ok && now.1->Done_0->Ok_0 is Some,
        ConvertPhase::Count(_) | ConvertPhase::Alloc(_) => same_size(
            desc,
            now.0.imports[desc.fb_id],
        ),
        _ => true,
    }
}

proof fn conversion_is_on_course(
    s: CaptureState,
    desc: DmabufDesc,
    transform: i32,
    events: Seq<CaptureEvent>,
    end: CaptureNext,
)
    requires
        conversion(s, desc, transform, true, events, end),
        !s.failed,
        convertible(s, desc, transform),
        all_goes_well(s.begin(desc, transform, true), events),
    ensures
        on_course(desc, end),
    decreases events.len(),
{
    if events.len() > 0 {
        let front = events.drop_last();
        let mid = after(s.begin(desc, transform, true), front);
        conversion_is_on_course(s, desc, transform, front, mid);
        conversion_is_linked(s, desc, transform, true, front, mid);
        if let CaptureEvent::Count(refs) = events.last() {
            first_where_is_first(refs@, |n: usize| n == 1);
        }
    }
}

/// Where everything asked for is done, a wanted frame that can be converted comes out.
pub proof fn well_served_frame_comes_out(
    s: CaptureState,
    desc: DmabufDesc,
    transform: i32,
    events: Seq<CaptureEvent>,
    end: CaptureNext,
)
    requires
        conversion(s, desc, transform, true, events, end),
        !s.failed,
        convertible(s, desc, transform),
        all_goes_well(s.begin(desc, transform, true), events),
        end.1 is Done,
    ensures
        end.1->Done_0 is Ok,
        end.1->Done_0->Ok_0 is Some,
{
    conversion_is_on_course(s, desc, transform, events, end);
    conversion_is_linked(s, desc, transform, true, events, end);
}

/// No surface is in the pool twice.
pub open spec fn pool_distinct(pool: Seq<JetsonSurface>) -> bool {
    forall|i: int, j: int|
        0 <= i < j < pool.len() ==> (#[trigger] pool[i]).handle != (#[trigger] pool[j]).handle
}

/// No surface is allocated at an address that is in use.
pub open spec fn allocates_fresh(start: CaptureNext, events: Seq<CaptureEvent>) -> bool
    decreases events.len(),
{
    events.len() == 0 || {
        &&& allocates_fresh(start, events.drop_last())
        &&& match events.last() {
            CaptureEvent::Alloc(handle) => handle != 0 ==> !after(
                start,
                events.drop_last(),
            ).0.holds(handle),
            _ => true,
        }
    }
}

proof fn filter_keeps_distinct(pool: Seq<JetsonSurface>, p: spec_fn(JetsonSurface) -> bool)
    requires
        pool_distinct(pool),
    ensures
        pool_distinct(pool.filter(p)),
    decreases pool.len(),
{
    reveal(Seq::filter);
    if pool.len() > 0 {
        let front = pool.drop_last();
        let kept = front.filter(p);
        assert forall|i: int, j: int| 0 <= i < j < front.len() implies (
        #[trigger] front[i]).handle != (#[trigger] front[j]).handle by {
            assert(pool[i].handle != pool[j].handle);
        }
        filter_keeps_distinct(front, p);
        filter_keeps_part(front, p);
        assert forall|i: int| 0 <= i < kept.len() implies (#[trigger] kept[i]).handle
            != pool.last().handle by {
            assert(front.contains(kept[i]));
            let k = choose|k: int| 0 <= k < front.len() && front[k] == kept[i];
            assert(pool[k] == kept[i]);
            assert(pool[pool.len() - 1] == pool.last());
        }
    }
}

proof fn next_keeps_pool_distinct(s: CaptureState, event: CaptureEvent)
    requires
        s.wf(),
        s.accepts(event),
        pool_distinct(s.pool),
        event is Alloc && event->Alloc_0 != 0 ==> !s.holds(event->Alloc_0),
    ensures
        pool_distinct(s.next(event).0.pool),
{
    match (s.phase, event) {
        (ConvertPhase::Import(desc, _), CaptureEvent::Import(_)) => {
            filter_keeps_distinct(s.pool, |x: JetsonSurface| same_size(desc, x));
        },
        (ConvertPhase::Alloc(_), CaptureEvent::Alloc(handle)) => {
            assert forall|i: int| 0 <= i < s.pool.len() && handle != 0 implies (
            #[trigger] s.pool[i]).handle != handle by {
                assert(!s.holds(handle));
            }
        },
        _ => {},
    }
}

/// The pool never holds a surface twice, so that a count of one reference stands for one surface
/// that nothing downstream refers to. Noting frames and handing out descriptors leave the pool
/// alone.
pub proof fn pool_stays_distinct(
    s: CaptureState,
    desc: DmabufDesc,
    transform: i32,
    wanted: bool,
    events: Seq<CaptureEvent>,
    end: CaptureNext,
)
    requires
        conversion(s, desc, transform, wanted, events, end),
        pool_distinct(s.pool),
        allocates_fresh(s.begin(desc, transform, wanted), events),
    ensures
        pool_distinct(end.0.pool),
        pool_distinct(CaptureState::empty().pool),
        forall|received_fd: i32, dup: Option<i32>| #[trigger]
            s.note(desc, received_fd, dup).pool == s.pool,
        forall|received_fd: i32| (#[trigger] s.gl_fd(desc, received_fd)).0.pool == s.pool,
    decreases events.len(),
{
    if events.len() == 0 {
        filter_keeps_distinct(s.pool, |x: JetsonSurface| same_size(desc, x));
    } else {
        let front = events.drop_last();
        let mid = after(s.begin(desc, transform, wanted), front);
        pool_stays_distinct(s, desc, transform, wanted, front, mid);
        conversion_is_linked(s, desc, transform, wanted, front, mid);
        next_keeps_pool_distinct(mid.0, events.last());
    }
}

/// Which frames are declined, by their own fields: a rotated one, one of high dynamic range, one
/// of several planes, any while GPU frames are not wanted or after a failure, and one whose
/// framebuffer has no descriptor yet. They take the other path at once, and the capture stays as
/// it was. No other frame is declined before it has been tried.
pub proof fn rotated_hdr_and_planar_frames_are_declined(
    s: CaptureState,
    desc: DmabufDesc,
    transform: i32,
    wanted: bool,
)
    requires
        s.wf(),
        s.phase is Idle,
    ensures
        ({
            let start = s.begin(desc, transform, wanted);
            let declined = transform != 0 || desc.hdr_eotf != 0 || desc.num_planes > 1 || !wanted
                || s.failed || !s.fds.contains_key(desc.fb_id);
            &&& declined ==> start.0 == s && start.1 == CaptureAction::Done(
                Ok::<Option<JetsonSurface>, JetsonError>(None),
            )
            &&& !declined ==> !(start.1 is Done)
        }),
{
    assert(CaptureState { phase: ConvertPhase::Idle, ..s } =~= s);
}

/// A frame that is tried begins with its own descriptor, which is the one kept for its framebuffer,
/// or where that is imported already, with the count of references to the pool.
pub proof fn conversion_begins_with_its_own_framebuffer(s: CaptureState, desc: DmabufDesc)
    requires
        s.wf(),
        s.phase is Idle,
        !s.failed,
        desc.hdr_eotf == 0,
        desc.num_planes <= 1,
        s.fds.contains_key(desc.fb_id),
    ensures
        ({
            let start = s.begin(desc, 0, true);
            &&& s.imports.contains_key(desc.fb_id) ==> start.1 is Count && start.0.phase
                == ConvertPhase::Count(desc)
            &&& !s.imports.contains_key(desc.fb_id) ==> start.1 == (CaptureAction::Dup {
                fd: s.fds[desc.fb_id],
            }) && start.0.phase == ConvertPhase::Dup(desc)
            &&& start.0.fds == s.fds
            &&& start.0.order == s.order
            &&& start.0.imports == s.imports
            &&& start.0.gl_seen == s.gl_seen
        }),
{
}

/// `after` is what becomes of the surfaces `before` of a pool for the frame that `desc` describes:
/// all stay if they have its size, and none if they have not.
pub open spec fn pool_for(
    before: Seq<JetsonSurface>,
    desc: DmabufDesc,
    after: Seq<JetsonSurface>,
) -> bool {
    &&& before.len() > 0 && before[0].width == desc.width && before[0].height == desc.height
        ==> after == before
    &&& before.len() == 0 || before[0].width != desc.width || before[0].height != desc.height
        ==> after.len() == 0
}

/// The pool holds surfaces of one size. When the framebuffer of a frame is imported, or was before,
/// they stay if it is the frame's size, and are all let go if it is not.
pub proof fn pool_is_kept_for_its_size_only(s: CaptureState, desc: DmabufDesc)
    requires
        s.wf(),
    ensures
        s.phase is Idle && !s.failed && desc.hdr_eotf == 0 && desc.num_planes <= 1
            && s.imports.contains_key(desc.fb_id) ==> pool_for(
            s.pool,
            desc,
            s.begin(desc, 0, true).0.pool,
        ),
        s.phase matches ConvertPhase::Import(d, request) ==> d == desc ==> forall|handle: usize|
            handle != 0 ==> pool_for(
                s.pool,
                desc,
                (#[trigger] s.next(CaptureEvent::Import(handle))).0.pool,
            ),
{
    let p = |x: JetsonSurface| same_size(desc, x);
    filter_keeps_part(s.pool, p);
    if s.pool.len() > 0 && s.pool[0].width == desc.width && s.pool[0].height == desc.height {
        filter_of_accepted(s.pool, p);
    } else if s.pool.filter(p).len() > 0 {
        let x = s.pool.filter(p)[0];
        assert(s.pool.contains(x) && p(x));
        let i = choose|i: int| 0 <= i < s.pool.len() && s.pool[i] == x;
        assert(s.pool[i].width == s.pool[0].width && s.pool[i].height == s.pool[0].height);
    }
}

/// `t` has come from a conversion of the frame that `desc` describes.
pub open spec fn converts(t: CaptureState, desc: DmabufDesc) -> bool {
    match t.phase {
        ConvertPhase::Idle => false,
        ConvertPhase::Dup(d) => d == desc,
        ConvertPhase::Import(d, request) => d == desc && import_plan(
            desc.width as usize,
            desc.height as usize,
            desc.format,
            desc.modifier,
            desc.pitches[0],
            desc.offsets[0],
        ) == Ok::<_, JetsonError>(request),
        ConvertPhase::Count(d) => d == desc,
        ConvertPhase::Alloc(d) => d == desc,
        ConvertPhase::Convert(_) => true,
    }
}

/// As long as it lasts, a conversion is that of its own frame.
pub proof fn conversion_is_that_of_its_frame(
    s: CaptureState,
    desc: DmabufDesc,
    transform: i32,
    wanted: bool,
    events: Seq<CaptureEvent>,
    end: CaptureNext,
)
    requires
        conversion(s, desc, transform, wanted, events, end),
    ensures
        end.0.phase is Idle || converts(end.0, desc),
        end.1 matches CaptureAction::Dup { fd } ==> s.fds.contains_key(desc.fb_id) && fd
            == s.fds[desc.fb_id],
        end.1 matches CaptureAction::Import(request) ==> end.0.phase == ConvertPhase::Import(
            desc,
            request,
        ),
        end.1 matches CaptureAction::Alloc(request) ==> request == (AllocRequest {
            width: desc.width as usize,
            height: desc.height as usize,
            format: 0,
        }) && end.0.pool.len() < 5,
        end.1 matches CaptureAction::Convert(request) ==> {
            &&& end.0.imports.contains_key(desc.fb_id)
            &&& request.src == end.0.imports[desc.fb_id].handle
            &&& end.0.phase matches ConvertPhase::Convert(dst) && dst.handle == request.dst
                && dst.nv12 && dst.width == desc.width && dst.height == desc.height
                && end.0.pool.contains(dst)
        },
        end.1 is Done <==> end.0.phase is Idle,
{
    conversion_is_linked(s, desc, transform, wanted, events, end);
}

/// Which outcomes fail the capture, and with what: a descriptor that cannot be duplicated, with the
/// system's words; a scanout that cannot be imported, or that the device refuses; a surface that is
/// not allocated; a failed conversion; and a framebuffer that has changed its size. No other
/// outcome does.
pub proof fn failing_outcome_gives_its_error(t: CaptureState, desc: DmabufDesc, event: CaptureEvent)
    requires
        t.wf(),
        converts(t, desc),
        t.accepts(event),
    ensures
        ({
            let plan = import_plan(
                desc.width as usize,
                desc.height as usize,
                desc.format,
                desc.modifier,
                desc.pitches[0],
                desc.offsets[0],
            );
            let src = t.imports[desc.fb_id];
            let changed = src.width != desc.width || src.height != desc.height;
            let action = t.next(event).1;
            let failed = action is Done && action->Done_0 is Err;
            let error = action->Done_0->Err_0;
            match event {
                CaptureEvent::Dup { ok, os_error } => {
                    &&& failed <==> !ok || plan is Err
                    &&& !ok ==> error == (JetsonError::DupFailed { os_error })
                    &&& ok && plan is Err ==> error == plan->Err_0
                    &&& ok && plan is Ok ==> action == CaptureAction::Import(plan->Ok_0)
                },
                CaptureEvent::Import(handle) => {
                    &&& failed <==> handle == 0
                    &&& failed ==> error == (JetsonError::ImportFailed {
                        width: desc.width as usize,
                        height: desc.height as usize,
                        modifier: desc.modifier,
                    })
                    &&& !failed ==> action is Count
                },
                CaptureEvent::Count(refs) => {
                    &&& failed <==> refs@.contains(1) && changed
                    &&& failed ==> error == JetsonError::SizeMismatch
                },
                CaptureEvent::Alloc(handle) => {
                    &&& failed <==> handle == 0 || changed
                    &&& handle == 0 ==> error == (JetsonError::AllocFailed {
                        width: desc.width as usize,
                        height: desc.height as usize,
                    })
                    &&& handle != 0 && changed ==> error == JetsonError::SizeMismatch
                },
                CaptureEvent::Convert(status) => {
                    &&& failed <==> status != 0
                    &&& failed ==> error == JetsonError::TransformFailed
                },
            }
        }),
{
    if let CaptureEvent::Count(refs) = event {
        let p = |n: usize| n == 1;
        first_where_is_first(refs@, p);
        match first_where(refs@, p) {
            Some(i) => {
                assert(refs@[i] == 1);
            },
            None => {
                if refs@.contains(1) {
                    let j = choose|j: int| 0 <= j < refs@.len() && refs@[j] == 1;
                    assert(p(refs@[j]));
                }
            },
        }
    }
}

/// The frame goes into the first surface of the pool to which only the pool refers; where there is
/// none and fewer than five, into a new one; where there are five, it is dropped.
pub proof fn frame_goes_to_the_first_free_surface(
    t: CaptureState,
    desc: DmabufDesc,
    refs: Vec<usize>,
    i: int,
)
    requires
        t.wf(),
        t.phase == ConvertPhase::Count(desc),
        refs@.len() == t.pool.len(),
        0 <= i <= refs@.len(),
        forall|j: int| 0 <= j < i ==> (#[trigger] refs@[j]) != 1,
        i < refs@.len() ==> refs@[i] == 1,
        t.imports[desc.fb_id].width == desc.width,
        t.imports[desc.fb_id].height == desc.height,
    ensures
        ({
            let action = t.next(CaptureEvent::Count(refs)).1;
            if i < refs@.len() {
                action == CaptureAction::Convert(
                    ConvertRequest {
                        src: t.imports[desc.fb_id].handle,
                        dst: t.pool[i].handle,
                    },
                ) && t.next(CaptureEvent::Count(refs)).0.phase == ConvertPhase::Convert(t.pool[i])
            } else if t.pool.len() < 5 {
                action is Alloc
            } else {
                action == CaptureAction::Done(Ok::<Option<JetsonSurface>, JetsonError>(None))
            }
        }),
{
    let p = |n: usize| n == 1;
    if i < refs@.len() {
        first_is_first_where(refs@, p, i);
    } else {
        none_is_first_where(refs@, p);
    }
}

/// What an outcome changes, and that it changes nothing else: an import is remembered for the
/// frame's own framebuffer, an allocated surface joins the pool at its end, and a failure is
/// remembered. What comes out is the surface that was converted into.
pub proof fn outcome_changes_what_it_is_about(
    t: CaptureState,
    desc: DmabufDesc,
    event: CaptureEvent,
)
    requires
        t.wf(),
        converts(t, desc),
        t.accepts(event),
    ensures
        ({
            let u = t.next(event).0;
            let action = t.next(event).1;
            let w = desc.width as usize;
            let h = desc.height as usize;
            &&& u.fds == t.fds
            &&& u.order == t.order
            &&& u.gl_seen == t.gl_seen
            &&& u.imports == match event {
                CaptureEvent::Import(handle) => if handle != 0 {
                    t.imports.insert(
                        desc.fb_id,
                        JetsonSurface { handle, width: w, height: h, nv12: false },
                    )
                } else {
                    t.imports
                },
                _ => t.imports,
            }
            &&& !(event is Import) ==> u.pool == match event {
                CaptureEvent::Alloc(handle) => if handle != 0 {
                    t.pool.push(JetsonSurface { handle, width: w, height: h, nv12: true })
                } else {
                    t.pool
                },
                _ => t.pool,
            }
            &&& u.failed <==> t.failed || action is Done && action->Done_0 is Err
            &&& event matches CaptureEvent::Alloc(handle) ==> action is Convert
                ==> action->Convert_0 == (ConvertRequest {
                src: t.imports[desc.fb_id].handle,
                dst: handle,
            })
            &&& event == CaptureEvent::Convert(0) ==> action == CaptureAction::Done(
                Ok::<_, JetsonError>(Some(t.phase->Convert_0)),
            )
            &&& action matches CaptureAction::Done(Ok(Some(frame))) ==> event
                == CaptureEvent::Convert(0)
        }),
{
    if let CaptureEvent::Count(refs) = event {
        first_where_is_first(refs@, |n: usize| n == 1);
    }
}

/// A frame is noted if and only if it carries a descriptor, one was received, its framebuffer has a
/// number and a duplicate could be made. Then the duplicate is what is kept for the framebuffer;
/// otherwise nothing changes. At most eight framebuffers are known.
pub proof fn descriptor_is_noted_if_there_is_one(
    s: CaptureState,
    desc: DmabufDesc,
    received_fd: i32,
    dup: Option<i32>,
)
    requires
        s.wf(),
        s.phase is Idle,
    ensures
        ({
            let t = s.note(desc, received_fd, dup);
            let noted = desc.has_fd && received_fd >= 0 && desc.fb_id != 0 && dup is Some;
            &&& !noted ==> t == s
            &&& noted ==> {
                &&& t.fds.contains_key(desc.fb_id)
                &&& t.fds[desc.fb_id] == dup->0
                &&& t.order.contains(desc.fb_id)
                &&& !t.imports.contains_key(desc.fb_id)
                &&& !t.gl_seen.contains(desc.fb_id)
                &&& !s.fds.contains_key(desc.fb_id) ==> t.order.last() == desc.fb_id
                &&& s.fds.contains_key(desc.fb_id) ==> t.order == s.order
            }
            &&& t.order.len() <= 8
            &&& t.order.len() < 8 ==> forall|id: u32| #[trigger]
                s.fds.contains_key(id) ==> t.fds.contains_key(id)
            &&& t.pool == s.pool
            &&& t.failed == s.failed
        }),
{
    note_keeps_wf(s, desc, received_fd, dup);
    let t = s.note(desc, received_fd, dup);
    if carries_fd(desc, received_fd) && dup is Some {
        let u = s.learn(desc.fb_id, dup->0);
        learn_keeps_known(s, desc.fb_id, dup->0);
        assert(u.order.contains(desc.fb_id));
        if !s.fds.contains_key(desc.fb_id) {
            assert(!s.order.contains(desc.fb_id));
            assert(u.order.last() == desc.fb_id);
            if u.order.len() > MAX_FBS {
                assert(u.order[0] == s.order[0]);
                assert(s.order.contains(s.order[0]));
            }
        }
        assert(t.fds.contains_key(desc.fb_id));
        assert(t.order.contains(desc.fb_id));
    }
}

/// What the other path is handed: the descriptor that came with the frame; or where none did and it
/// has had none, the one kept for the framebuffer; or else what came, which is none. It has had one
/// from then on, exactly if it was handed one or had one before. Nothing else changes.
pub proof fn other_path_gets_each_descriptor_once(
    s: CaptureState,
    desc: DmabufDesc,
    received_fd: i32,
)
    ensures
        ({
            let id = desc.fb_id;
            let (t, fd) = s.gl_fd(desc, received_fd);
            let kept = received_fd < 0 && !s.gl_seen.contains(id) && s.fds.contains_key(id);
            &&& fd == (if kept {
                s.fds[id]
            } else {
                received_fd
            })
            &&& t.gl_seen.contains(id) <==> received_fd >= 0 || s.gl_seen.contains(id) || kept
            &&& forall|x: u32|
                x != id ==> #[trigger] t.gl_seen.contains(x) == s.gl_seen.contains(x)
            &&& t.fds == s.fds
            &&& t.order == s.order
            &&& t.imports == s.imports
            &&& t.pool == s.pool
            &&& t.failed == s.failed
        }),
{
}

/// A capture holds exactly the surfaces of its pool and its imports.
pub proof fn surfaces_held_are_those_referred_to(t: CaptureState, handle: usize)
    ensures
        t.holds(handle) <==> {
            ||| exists|i: int| 0 <= i < t.pool.len() && (#[trigger] t.pool[i]).handle == handle
            ||| exists|id: u32| #[trigger]
                t.imports.contains_key(id) && t.imports[id].handle == handle
        },
{
}

/// The outcome that is accepted is that of the action that was given, of the same name; a count
/// comes for every surface of the pool.
pub proof fn only_the_outcome_asked_for_is_accepted(
    s: CaptureState,
    desc: DmabufDesc,
    transform: i32,
    wanted: bool,
    events: Seq<CaptureEvent>,
    end: CaptureNext,
    event: CaptureEvent,
)
    requires
        conversion(s, desc, transform, wanted, events, end),
    ensures
        end.0.accepts(event) <==> {
            ||| end.1 is Dup && event is Dup
            ||| end.1 is Import && event is Import
            ||| end.1 is Count && (event matches CaptureEvent::Count(refs) && refs@.len()
                == end.0.pool.len())
            ||| end.1 is Alloc && event is Alloc
            ||| end.1 is Convert && event is Convert
        },
{
    conversion_is_linked(s, desc, transform, wanted, events, end);
}

/// GPU frames are delivered exactly while they are wanted and no screenshot is being made.
pub proof fn gate_is_open_while_wanted_and_not_suspended(gate: CaptureGate)
    ensures
        gate.open() <==> gate.wanted && !gate.suspended,
{
}

/// A new capture knows nothing.
pub proof fn new_capture_knows_nothing(id: u32)
    ensures
        ({
            let s = CaptureState::empty();
            &&& !s.fds.contains_key(id)
            &&& s.order.len() == 0
            &&& !s.imports.contains_key(id)
            &&& !s.gl_seen.contains(id)
            &&& s.pool.len() == 0
            &&& !s.failed
            &&& s.phase is Idle
        }),
{
}

} // verus!
