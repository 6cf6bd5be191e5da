//! What holds of the encoder over any dialogue with the device.

use crate::encoder_model::{
    frame_bytes, presentation_us, Action, EncoderState, Event, JetsonEncoderConfig, Next,
    Phase, ReclaimFor, MAX_IN_FLIGHT, SLOTS,
};
use crate::error::JetsonError;
use crate::format::{codec_number, CodecFormat};
use crate::frame::{encoded_frame, quotient, EncodeInput, FrameView, VideoFrame, VideoView};
use crate::search::{first_is_first_where, first_where_is_first, is_first, none_is_first_where};
use crate::surface::{AllocRequest, ConvertRequest, JetsonSurface, TEXTURE_TAG};
use vstd::prelude::*;

verus! {

/// A new encoder is well-formed.
pub proof fn fresh_is_wf(config: JetsonEncoderConfig, bitrate: u32)
    requires
        codec_number(config.format) is Some,
        bitrate * 1000 <= u32::MAX,
    ensures
        EncoderState::fresh(config, bitrate).wf(),
{
}

proof fn seek_slot_keeps_wf(s: EncoderState, retry: bool)
    requires
        s.well_kept(),
        s.queueing(),
    ensures
        s.seek_slot(retry).0.wf(),
{
    first_where_is_first(s.slots, |x: Option<JetsonSurface>| x is None);
}

proof fn take_frame_keeps_wf(s: EncoderState, surface: JetsonSurface)
    requires
        s.well_kept(),
        s.acquiring(),
        s.fits(surface),
    ensures
        s.take_frame(surface).0.wf(),
{
    let t = EncoderState {
        last: Some(surface),
        copies: if s.first {
            2
        } else {
            1
        },
        ..s
    };
    assert(t.cpu_pool == s.cpu_pool && t.slots == s.slots && t.frames == s.frames);
    assert(t.well_kept());
    seek_slot_keeps_wf(t, false);
}

proof fn pick_surface_keeps_wf(s: EncoderState)
    requires
        s.well_kept(),
        s.uploading(),
    ensures
        s.pick_surface().0.wf(),
{
    first_where_is_first(s.cpu_pool, |x: JetsonSurface| !s.busy(x.handle));
}

/// A call keeps the encoder well-formed as it begins.
pub proof fn begin_keeps_wf(s: EncoderState, input: EncodeInput, ms: i64)
    requires
        s.wf(),
        s.ready(input, ms),
    ensures
        s.begin(input, ms).0.wf(),
{
    let t = EncoderState { pts_us: presentation_us(ms), ..s };
    assert(t.cpu_pool == s.cpu_pool && t.slots == s.slots && t.frames == s.frames);
    assert(t.well_kept());
    if let EncodeInput::Texture((ptr, tag)) = input {
        if ptr == 0 && s.last is Some {
            take_frame_keeps_wf(t, s.last->0);
        }
    }
}

/// Every answer of the device keeps the encoder well-formed.
pub proof fn next_keeps_wf(s: EncoderState, event: Event)
    requires
        s.wf(),
        s.accepts(event),
    ensures
        s.next(event).0.wf(),
{
    match (s.phase, event) {
        (Phase::Reclaim(why), Event::Reclaim(index)) => {
            if 0 <= index < SLOTS {
                let t = EncoderState { slots: s.slots.update(index as int, None), ..s };
                assert(t.cpu_pool == s.cpu_pool && t.frames == s.frames);
                assert(t.well_kept());
            } else if why is Slot {
                seek_slot_keeps_wf(s, true);
            }
        },
        (Phase::Upload, Event::Upload(status)) => {
            pick_surface_keeps_wf(s);
        },
        (Phase::AllocNv12, Event::Alloc(handle)) => {
            if handle != 0 {
                let x = s.nv12_request().outcome(handle)->Ok_0;
                let t = EncoderState { cpu_pool: s.cpu_pool.push(x), ..s };
                assert(t.slots == s.slots && t.frames == s.frames);
                assert(t.cpu_pool[s.cpu_pool.len() as int] == x);
                assert(t.well_kept());
            }
        },
        (Phase::Convert(dst), Event::Convert(status)) => {
            take_frame_keeps_wf(s, dst);
        },
        (Phase::Adopt, Event::Adopt(surface)) => {
            if s.fits(surface) {
                take_frame_keeps_wf(s, surface);
            }
        },
        (Phase::Queue(slot), Event::Queue { status, os_error }) => {
            let t = EncoderState {
                slots: s.slots.update(slot as int, s.last),
                in_flight: s.in_flight + 1,
                copies: s.copies - 1,
                ..s
            };
            assert(t.cpu_pool == s.cpu_pool && t.frames == s.frames);
            assert(t.well_kept());
            if t.copies > 0 {
                seek_slot_keeps_wf(t, false);
            }
        },
        (Phase::Dequeue, Event::Dequeue { index, data, key, pts_us, os_error }) => {
            if index == -1 {
                let t = EncoderState { in_flight: MAX_IN_FLIGHT as int, ..s };
                assert(t.cpu_pool == s.cpu_pool && t.slots == s.slots && t.frames == s.frames);
                assert(t.well_kept());
            }
        },
        _ => {},
    }
}

/// Where the answers `events` lead from the step `start`.
pub open spec fn after(start: Next, events: Seq<Event>) -> Next
    decreases events.len(),
{
    if events.len() == 0 {
        start
    } else {
        after(start, events.drop_last()).0.next(events.last())
    }
}

/// Each of `events` answers what was asked when it came.
pub open spec fn answers(start: Next, events: Seq<Event>) -> bool
    decreases events.len(),
{
    events.len() == 0 || {
        &&& answers(start, events.drop_last())
        &&& after(start, events.drop_last()).0.accepts(events.last())
    }
}

/// `end` is where the call that encodes `input` has come to after the answers `events`.
pub open spec fn dialogue(
    s: EncoderState,
    input: EncodeInput,
    ms: i64,
    events: Seq<Event>,
    end: Next,
) -> bool {
    &&& s.wf()
    &&& s.ready(input, ms)
    &&& answers(s.begin(input, ms), events)
    &&& end == after(s.begin(input, ms), events)
}

/// The pictures that the device handed over in `events`.
pub open spec fn gathered(events: Seq<Event>) -> Seq<FrameView>
    decreases events.len(),
{
    if events.len() == 0 {
        Seq::empty()
    } else {
        let front = gathered(events.drop_last());
        match events.last() {
            Event::Dequeue { index, data, key, pts_us, os_error } => if index >= 0 && data@.len()
                > 0 {
                front.push(encoded_frame(data@, key, pts_us))
            } else {
                front
            },
            _ => front,
        }
    }
}

/// How often a call queues its frame.
pub open spec fn copies_of(s: EncoderState) -> int {
    if s.first {
        2
    } else {
        1
    }
}

/// `action` is what the caller has to do in the state `t`. In the last step of a call it is
/// the result.
pub open spec fn asks(t: EncoderState, action: Action<VideoView>) -> bool {
    match t.phase {
        Phase::Idle => action is Done,
        Phase::AllocUpload => action == Action::<VideoView>::Alloc(t.upload_request()),
        Phase::AllocNv12 => action == Action::<VideoView>::Alloc(t.nv12_request()),
        Phase::Reclaim(why) => action is Reclaim,
        Phase::Upload => action is Upload && action->dst == t.upload->0.handle,
        Phase::Convert(dst) => action == Action::<VideoView>::Convert(
            ConvertRequest { src: t.upload->0.handle, dst: dst.handle },
        ),
        Phase::Adopt => action is Adopt,
        Phase::Queue(slot) => action == (Action::<VideoView>::Queue {
            index: slot as i32,
            surface: t.last->0.handle,
            pts_us: t.pts_us as i64,
        }),
        Phase::Dequeue => action == (Action::<VideoView>::Dequeue {
            timeout_ms: t.dequeue_timeout(),
        }),
        Phase::Release => action is Release,
    }
}

/// What links a state within a call to the state `s` before it.
spec fn linked(s: EncoderState, ms: i64, gathered: Seq<FrameView>, now: Next) -> bool {
    let t = now.0;
    &&& t.wf()
    &&& t.config == s.config
    &&& t.bitrate == s.bitrate
    &&& asks(t, now.1)
    &&& !(t.phase is Idle) ==> {
        &&& t.first == s.first
        &&& t.frames == gathered
        &&& t.pts_us == presentation_us(ms)
    }
    &&& match t.phase {
        Phase::Idle => true,
        Phase::AllocUpload
        | Phase::Reclaim(ReclaimFor::Upload)
        | Phase::Upload
        | Phase::AllocNv12
        | Phase::Convert(_)
        | Phase::Adopt => {
            &&& t.in_flight == s.in_flight
            &&& t.last == s.last
        },
        Phase::Reclaim(ReclaimFor::Slot { .. }) | Phase::Queue(_) => {
            t.in_flight + t.copies == s.in_flight + copies_of(s)
        },
        Phase::Dequeue | Phase::Release | Phase::Reclaim(ReclaimFor::Finish) => {
            t.in_flight + t.frames.len() <= s.in_flight + copies_of(s)
        },
    }
    &&& now.1 is Done ==> match now.1->Done_0 {
        Ok(v) => {
            &&& t.in_flight == MAX_IN_FLIGHT
            &&& !t.first
            &&& t.last is Some
            &&& v.frames() == gathered
            &&& v.codec() == s.config.format
            &&& 1 <= v.frames().len() < s.in_flight + copies_of(s)
        },
        Err(e) => {
            &&& t.first == s.first
            &&& e is NoValidFrame ==> t.in_flight == MAX_IN_FLIGHT
            &&& e is NoFreeSlot ==> t.free_slot() is None
            &&& !(e is UnsupportedFormat)
        },
    }
}

proof fn free_slot_in_range()
    ensures
        forall|t: EncoderState|
            t.slots.len() == SLOTS && (#[trigger] t.free_slot()) is Some ==> 0 <= t.free_slot()->0
                < SLOTS,
{
    assert forall|t: EncoderState|
        t.slots.len() == SLOTS && (#[trigger] t.free_slot()) is Some implies 0 <= t.free_slot()->0
        < SLOTS by {
        first_where_is_first(t.slots, |x: Option<JetsonSurface>| x is None);
    }
}

proof fn next_is_linked(
    s: EncoderState,
    ms: i64,
    front: Seq<Event>,
    mid: Next,
    event: Event,
)
    requires
        linked(s, ms, gathered(front), mid),
        mid.0.accepts(event),
    ensures
        linked(s, ms, gathered(front.push(event)), mid.0.next(event)),
{
    next_keeps_wf(mid.0, event);
    free_slot_in_range();
    assert(front.push(event).drop_last() =~= front);
}

proof fn dialogue_is_linked(
    s: EncoderState,
    input: EncodeInput,
    ms: i64,
    events: Seq<Event>,
    end: Next,
)
    requires
        dialogue(s, input, ms, events, end),
    ensures
        linked(s, ms, gathered(events), end),
    decreases events.len(),
{
    let start = s.begin(input, ms);
    begin_keeps_wf(s, input, ms);
    if events.len() == 0 {
        free_slot_in_range();
        assert(s.frames =~= gathered(events));
    } else {
        let front = events.drop_last();
        let mid = after(start, front);
        dialogue_is_linked(s, input, ms, front, mid);
        next_is_linked(s, ms, front, mid, events.last());
        assert(events =~= front.push(events.last()));
    }
}

/// In any dialogue with the device the encoder stays well-formed, and the action that the
/// caller is given is the one whose answer the encoder waits for.
pub proof fn dialogue_keeps_wf(
    s: EncoderState,
    input: EncodeInput,
    ms: i64,
    events: Seq<Event>,
    end: Next,
)
    requires
        dialogue(s, input, ms, events, end),
    ensures
        end.0.wf(),
        asks(end.0, end.1),
{
    dialogue_is_linked(s, input, ms, events, end);
}

/// A call that succeeds returns, under the encoder's codec, exactly the non-empty pictures
/// that the device handed over, in their order; there is at least one. It leaves one frame in
/// flight.
pub proof fn success_returns_what_was_gathered(
    s: EncoderState,
    input: EncodeInput,
    ms: i64,
    events: Seq<Event>,
    end: Next,
    video: VideoView,
)
    requires
        dialogue(s, input, ms, events, end),
        end.1 == Action::Done(Ok::<VideoView, JetsonError>(video)),
    ensures
        video.frames() == gathered(events),
        video.codec() == s.config.format,
        video.frames().len() >= 1,
        end.0.in_flight == MAX_IN_FLIGHT,
        !end.0.first,
{
    dialogue_is_linked(s, input, ms, events, end);
}

/// The encoder has one frame in flight, or none and is about to queue its first frame twice.
pub open spec fn steady(s: EncoderState) -> bool {
    s.in_flight + copies_of(s) == MAX_IN_FLIGHT + 1
}

/// A new encoder is steady, and a call that succeeds leaves it steady.
pub proof fn success_leaves_steady(
    s: EncoderState,
    input: EncodeInput,
    ms: i64,
    events: Seq<Event>,
    end: Next,
    video: VideoView,
)
    requires
        dialogue(s, input, ms, events, end),
        end.1 == Action::Done(Ok::<VideoView, JetsonError>(video)),
    ensures
        steady(end.0),
        forall|config: JetsonEncoderConfig, bitrate: u32|
            steady(#[trigger] EncoderState::fresh(config, bitrate)),
{
    dialogue_is_linked(s, input, ms, events, end);
}

/// A call on a steady encoder that succeeds returns exactly one picture.
pub proof fn steady_call_returns_one_frame(
    s: EncoderState,
    input: EncodeInput,
    ms: i64,
    events: Seq<Event>,
    end: Next,
    video: VideoView,
)
    requires
        dialogue(s, input, ms, events, end),
        end.1 == Action::Done(Ok::<VideoView, JetsonError>(video)),
        steady(s),
    ensures
        video.frames().len() == 1,
{
    dialogue_is_linked(s, input, ms, events, end);
}

/// The frames that the device holds after `events`, each by its presentation time, the one
/// queued longest first; `held` are those at the start of the call.
pub open spec fn device_holds(held: Seq<int>, start: Next, events: Seq<Event>) -> Seq<int>
    decreases events.len(),
{
    if events.len() == 0 {
        held
    } else {
        let before = device_holds(held, start, events.drop_last());
        match events.last() {
            Event::Queue { status, os_error } => if status == 0 {
                before.push(after(start, events.drop_last()).1->pts_us as int)
            } else {
                before
            },
            Event::Dequeue { index, data, key, pts_us, os_error } => if index >= 0 {
                before.drop_first()
            } else {
                before
            },
            _ => before,
        }
    }
}

/// The device encodes in order: each picture that it hands over is that of the frame queued
/// longest.
pub open spec fn encodes_in_order(held: Seq<int>, start: Next, events: Seq<Event>) -> bool
    decreases events.len(),
{
    events.len() == 0 || {
        let before = device_holds(held, start, events.drop_last());
        &&& encodes_in_order(held, start, events.drop_last())
        &&& match events.last() {
            Event::Dequeue { index, data, key, pts_us, os_error } => index >= 0 ==> before.len() > 0
                && pts_us == before[0],
            _ => true,
        }
    }
}

/// The presentation time of the picture that a call on a steady encoder returns: that of the
/// frame already held by the device, or for the first call its own.
pub open spec fn returned_us(s: EncoderState, ms: i64, held: Seq<int>) -> int {
    if s.first {
        presentation_us(ms)
    } else {
        held[0]
    }
}

/// What the device holds at each step of a call on a steady encoder.
spec fn piped(
    s: EncoderState,
    ms: i64,
    before: Seq<int>,
    gathered: Seq<FrameView>,
    now: Next,
    held: Seq<int>,
) -> bool {
    let own = presentation_us(ms);
    let due = quotient(returned_us(s, ms, before), 1000);
    match now.0.phase {
        Phase::Idle => now.1->Done_0 is Ok ==> {
            &&& held == seq![own]
            &&& gathered.len() == 1
            &&& gathered[0].pts == due
        },
        Phase::AllocUpload
        | Phase::Reclaim(ReclaimFor::Upload)
        | Phase::Upload
        | Phase::AllocNv12
        | Phase::Convert(_)
        | Phase::Adopt => held == before,
        Phase::Reclaim(ReclaimFor::Slot { .. }) | Phase::Queue(_) => {
            held == if now.0.copies == copies_of(s) {
                before
            } else {
                before.push(own)
            }
        },
        Phase::Dequeue => {
            &&& held == seq![returned_us(s, ms, before)].push(own)
            &&& gathered.len() == 0
        },
        Phase::Release | Phase::Reclaim(ReclaimFor::Finish) => {
            &&& now.0.in_flight == MAX_IN_FLIGHT
            &&& gathered.len() > 0 ==> {
                &&& held == seq![own]
                &&& gathered.len() == 1
                &&& gathered[0].pts == due
            }
        },
    }
}

proof fn next_is_piped(
    s: EncoderState,
    ms: i64,
    before: Seq<int>,
    start: Next,
    events: Seq<Event>,
)
    requires
        events.len() > 0,
        steady(s),
        before.len() == s.in_flight,
        ({
            let front = events.drop_last();
            let mid = after(start, front);
            &&& linked(s, ms, gathered(front), mid)
            &&& mid.0.accepts(events.last())
            &&& piped(s, ms, before, gathered(front), mid, device_holds(before, start, front))
        }),
        encodes_in_order(before, start, events),
    ensures
        piped(
            s,
            ms,
            before,
            gathered(events),
            after(start, events),
            device_holds(before, start, events),
        ),
{
    let front = events.drop_last();
    let mid = after(start, front);
    let held = device_holds(before, start, front);
    let now = device_holds(before, start, events);
    let own = presentation_us(ms);
    next_is_linked(s, ms, front, mid, events.last());
    assert(events =~= front.push(events.last()));
    match mid.0.phase {
        Phase::Queue(_) => {
            if after(start, events).0.phase is Dequeue {
                assert(now =~= seq![returned_us(s, ms, before)].push(own));
            }
        },
        Phase::Dequeue => {
            if now != held {
                assert(now =~= seq![own]);
            }
        },
        _ => {},
    }
}

proof fn dialogue_is_piped(
    s: EncoderState,
    input: EncodeInput,
    ms: i64,
    events: Seq<Event>,
    end: Next,
    before: Seq<int>,
)
    requires
        dialogue(s, input, ms, events, end),
        steady(s),
        before.len() == s.in_flight,
        encodes_in_order(before, s.begin(input, ms), events),
    ensures
        piped(
            s,
            ms,
            before,
            gathered(events),
            end,
            device_holds(before, s.begin(input, ms), events),
        ),
    decreases events.len(),
{
    let start = s.begin(input, ms);
    if events.len() > 0 {
        let front = events.drop_last();
        let mid = after(start, front);
        dialogue_is_piped(s, input, ms, front, mid, before);
        dialogue_is_linked(s, input, ms, front, mid);
        next_is_piped(s, ms, before, start, events);
    }
}

/// Each call returns the frame before. On a device that encodes in order, a call on a steady
/// encoder that succeeds returns the one picture whose frame the device already held, and the
/// first call its own. It leaves its own frame, and no other, with the device; so the next call
/// returns that one.
pub proof fn call_returns_the_frame_before(
    s: EncoderState,
    input: EncodeInput,
    ms: i64,
    events: Seq<Event>,
    end: Next,
    video: VideoView,
    held: Seq<int>,
)
    requires
        dialogue(s, input, ms, events, end),
        end.1 == Action::Done(Ok::<VideoView, JetsonError>(video)),
        steady(s),
        held.len() == s.in_flight,
        encodes_in_order(held, s.begin(input, ms), events),
    ensures
        video.frames().len() == 1,
        video.frames()[0].pts == quotient(returned_us(s, ms, held), 1000),
        device_holds(held, s.begin(input, ms), events) == seq![presentation_us(ms)],
        steady(end.0),
        forall|later: i64| #[trigger]
            returned_us(
                end.0,
                later,
                device_holds(held, s.begin(input, ms), events),
            ) == presentation_us(ms),
        quotient(presentation_us(ms), 1000) == (if ms < 0 {
            0
        } else {
            ms as int
        }),
{
    dialogue_is_linked(s, input, ms, events, end);
    dialogue_is_piped(s, input, ms, events, end, held);
}

/// A call that yields nothing, because an input produced no output, leaves one frame in flight
/// all the same: the count does not drift.
pub proof fn fruitless_call_leaves_one_in_flight(
    s: EncoderState,
    input: EncodeInput,
    ms: i64,
    events: Seq<Event>,
    end: Next,
)
    requires
        dialogue(s, input, ms, events, end),
        end.1 == Action::Done(Err::<VideoView, JetsonError>(JetsonError::NoValidFrame)),
    ensures
        end.0.in_flight == MAX_IN_FLIGHT,
        gathered(events).len() == 0,
{
    dialogue_is_linked(s, input, ms, events, end);
    let front = events.drop_last();
    assert(events.len() > 0);
    let mid = after(s.begin(input, ms), front);
    dialogue_is_linked(s, input, ms, front, mid);
    assert(mid.0.phase == Phase::Reclaim(ReclaimFor::Finish));
}

/// A surface stays held while it is in a slot, or while it is the last frame. One that is
/// neither of the CPU pool nor the upload surface is let go when that ends.
pub proof fn frame_is_held_while_needed(s: EncoderState, handle: usize)
    ensures
        forall|i: int| #[trigger] s.slot_holds(i, handle) ==> s.holds(handle),
        s.last is Some ==> s.holds(s.last->0.handle),
        !(s.upload is Some && s.upload->0.handle == handle) && (forall|i: int|
            0 <= i < s.cpu_pool.len() ==> (#[trigger] s.cpu_pool[i]).handle != handle) ==> s.holds(
            handle,
        ) == s.busy(handle),
{
}

/// No call changes how the encoder is set up, none fails for want of the codec, and one that
/// fails does not count as the first.
pub proof fn failure_keeps_setup(
    s: EncoderState,
    input: EncodeInput,
    ms: i64,
    events: Seq<Event>,
    end: Next,
)
    requires
        dialogue(s, input, ms, events, end),
    ensures
        end.0.config == s.config,
        end.0.bitrate == s.bitrate,
        end.1 is Done && end.1->Done_0 is Err ==> end.0.first == s.first && !(
        end.1->Done_0->Err_0 is UnsupportedFormat),
{
    dialogue_is_linked(s, input, ms, events, end);
}

/// Whatever is queued goes to a slot that is empty, is an NV12 surface of the encoder's size,
/// is the frame that a repeat would show, and carries the time of the call.
pub proof fn queued_frame_is_sound(
    s: EncoderState,
    input: EncodeInput,
    ms: i64,
    events: Seq<Event>,
    end: Next,
    index: i32,
    surface: usize,
    pts_us: i64,
)
    requires
        dialogue(s, input, ms, events, end),
        end.1 == (Action::<VideoView>::Queue { index, surface, pts_us }),
    ensures
        0 <= index < SLOTS,
        end.0.slots[index as int] is None,
        end.0.last is Some,
        end.0.last->0.handle == surface,
        end.0.fits(end.0.last->0),
        pts_us == presentation_us(ms),
{
    dialogue_is_linked(s, input, ms, events, end);
}

/// The input itself was refused, before anything was done with it.
pub open spec fn refuses_input(error: JetsonError) -> bool {
    ||| error is FrameTooSmall
    ||| error is NoFrameToRepeat
    ||| error is NotJetsonTexture
    ||| error is TextureMismatch
}

proof fn adoption_comes_first(s: EncoderState, input: EncodeInput, ms: i64, events: Seq<Event>)
    requires
        s.wf(),
        s.ready(input, ms),
        answers(s.begin(input, ms), events),
        after(s.begin(input, ms), events).0.phase is Adopt,
    ensures
        events.len() == 0,
    decreases events.len(),
{
    if events.len() > 0 {
        let front = events.drop_last();
        let mid = after(s.begin(input, ms), front).0;
        assert(mid.accepts(events.last()));
    }
}

/// A call whose input is refused leaves the encoder exactly as it was.
pub proof fn refused_input_changes_nothing(
    s: EncoderState,
    input: EncodeInput,
    ms: i64,
    events: Seq<Event>,
    end: Next,
    error: JetsonError,
)
    requires
        dialogue(s, input, ms, events, end),
        end.1 == Action::Done(Err::<VideoView, JetsonError>(error)),
        refuses_input(error),
    ensures
        end.0 == s,
{
    assert(s.frames =~= Seq::empty());
    if events.len() > 0 {
        let front = events.drop_last();
        let mid = after(s.begin(input, ms), front).0;
        assert(mid.accepts(events.last()));
        assert(mid.phase is Adopt);
        adoption_comes_first(s, input, ms, front);
        assert(end.0 =~= s);
    } else {
        assert(end.0 =~= s);
    }
}

proof fn busy_depends_on_slots_and_last(t: EncoderState, u: EncoderState, handle: usize)
    requires
        t.slots == u.slots,
        t.last == u.last,
    ensures
        t.busy(handle) == u.busy(handle),
{
    if t.busy(handle) && exists|i: int| #[trigger] t.slot_holds(i, handle) {
        let i = choose|i: int| #[trigger] t.slot_holds(i, handle);
        assert(u.slot_holds(i, handle));
    }
    if u.busy(handle) && exists|i: int| #[trigger] u.slot_holds(i, handle) {
        let i = choose|i: int| #[trigger] u.slot_holds(i, handle);
        assert(t.slot_holds(i, handle));
    }
}

/// An uploaded frame never overwrites a surface that the device may still read or that a
/// repeat may need: it is converted into one that is neither in a slot nor the last frame,
/// unless that one has just been allocated. It is so of that one too where surfaces are not
/// allocated at addresses in use.
pub proof fn conversion_spares_frames_in_use(
    s: EncoderState,
    input: EncodeInput,
    ms: i64,
    events: Seq<Event>,
    end: Next,
    request: ConvertRequest,
)
    requires
        dialogue(s, input, ms, events, end),
        end.1 == Action::<VideoView>::Convert(request),
    ensures
        !end.0.busy(request.dst) || events.last() == Event::Alloc(request.dst),
        allocates_fresh(s.begin(input, ms), events) ==> !end.0.busy(request.dst),
{
    assert(events.len() > 0);
    let front = events.drop_last();
    let mid = after(s.begin(input, ms), front).0;
    assert(mid.accepts(events.last()));
    if mid.phase is Upload {
        first_where_is_first(mid.cpu_pool, |x: JetsonSurface| !mid.busy(x.handle));
    }
    busy_depends_on_slots_and_last(mid, end.0, request.dst);
}

/// A slot keeps its surface until the device reports it finished, and gets one only when the
/// frame of the call has been queued in it.
pub proof fn slot_is_held_until_reported(s: EncoderState, event: Event, i: int)
    requires
        s.wf(),
        s.accepts(event),
        0 <= i < SLOTS,
    ensures
        s.slots[i] is Some && event != Event::Reclaim(i as i32) ==> s.next(event).0.slots[i]
            == s.slots[i],
        s.slots[i] is None && s.next(event).0.slots[i] is Some ==> {
            &&& s.phase == Phase::Queue(i as usize)
            &&& event is Queue
            &&& event->status == 0
            &&& s.next(event).0.slots[i] == s.last
        },
{
}

/// After a call that succeeded, the last frame can be repeated: it is queued again.
pub proof fn repeat_after_success(
    s: EncoderState,
    input: EncodeInput,
    ms: i64,
    events: Seq<Event>,
    end: Next,
    video: VideoView,
    tag: usize,
    later: i64,
)
    requires
        dialogue(s, input, ms, events, end),
        end.1 == Action::Done(Ok::<VideoView, JetsonError>(video)),
    ensures
        end.0.last is Some,
        end.0.begin(EncodeInput::Texture((0, tag)), later) == (EncoderState {
            pts_us: presentation_us(later),
            ..end.0
        }).take_frame(end.0.last->0),
        !(end.0.begin(EncodeInput::Texture((0, tag)), later).1 is Done),
{
    dialogue_is_linked(s, input, ms, events, end);
}

/// The texture of a surface leads back to that surface, which is taken as the frame if and
/// only if it is an NV12 surface of the encoder's size.
pub proof fn own_texture_is_taken(s: EncoderState, surface: JetsonSurface, ms: i64)
    requires
        s.wf(),
        s.ready(EncodeInput::Texture((surface.handle, TEXTURE_TAG)), ms),
        surface.handle != 0,
    ensures
        ({
            let asked = s.begin(EncodeInput::Texture((surface.handle, TEXTURE_TAG)), ms);
            let given = asked.0.next(Event::Adopt(surface));
            &&& asked.1 == (Action::<VideoView>::Adopt { ptr: surface.handle })
            &&& asked.0.accepts(Event::Adopt(surface))
            &&& s.fits(surface) ==> given.0.last == Some(surface) && !(given.1 is Done)
            &&& !s.fits(surface) ==> given.0 == s && given.1 == Action::Done(
                Err::<VideoView, JetsonError>(
                    JetsonError::TextureMismatch {
                        width: surface.width,
                        height: surface.height,
                        want_width: s.config.width,
                        want_height: s.config.height,
                    },
                ),
            )
        }),
{
    let asked = s.begin(EncodeInput::Texture((surface.handle, TEXTURE_TAG)), ms);
    let given = asked.0.next(Event::Adopt(surface));
    assert(s.frames =~= Seq::empty());
    if !s.fits(surface) {
        assert(given.0 =~= s);
    }
}

/// The surfaces of the CPU pool are at different addresses.
pub open spec fn pool_distinct(s: EncoderState) -> bool {
    forall|i: int, j: int|
        0 <= i < j < s.cpu_pool.len() ==> (#[trigger] s.cpu_pool[i]).handle != (
        #[trigger] s.cpu_pool[j]).handle
}

/// The CPU pool holds no more surfaces than there are slots, one for the last frame and one
/// being written.
pub open spec fn pool_small(s: EncoderState) -> bool {
    &&& pool_distinct(s)
    &&& s.cpu_pool.len() <= SLOTS + 2
    &&& s.phase is AllocNv12 ==> s.cpu_pool.len() <= SLOTS + 1
}

/// The device never allocates a surface at an address that is in use.
pub open spec fn allocates_fresh(start: Next, events: Seq<Event>) -> bool
    decreases events.len(),
{
    events.len() == 0 || {
        &&& allocates_fresh(start, events.drop_last())
        &&& match events.last() {
            Event::Alloc(handle) => handle != 0 ==> !after(start, events.drop_last()).0.holds(
                handle,
            ),
            _ => true,
        }
    }
}

proof fn distinct_fit(a: Seq<usize>, b: Seq<usize>)
    requires
        a.no_duplicates(),
        forall|i: int| 0 <= i < a.len() ==> b.contains(#[trigger] a[i]),
    ensures
        a.len() <= b.len(),
{
    broadcast use vstd::seq_lib::seq_to_set_is_finite;

    a.unique_seq_to_set();
    b.lemma_cardinality_of_set();
    assert(a.to_set().subset_of(b.to_set()));
    vstd::set_lib::lemma_len_subset(a.to_set(), b.to_set());
}

proof fn busy_pool_is_small(s: EncoderState)
    requires
        s.well_kept(),
        pool_distinct(s),
        forall|i: int| 0 <= i < s.cpu_pool.len() ==> s.busy((#[trigger] s.cpu_pool[i]).handle),
    ensures
        s.cpu_pool.len() <= SLOTS + 1,
{
    let handles = Seq::new(s.cpu_pool.len(), |i: int| s.cpu_pool[i].handle);
    let holders = Seq::new(
        (SLOTS + 1) as nat,
        |i: int|
            if i < SLOTS {
                s.slots[i]->0.handle
            } else {
                s.last->0.handle
            },
    );
    assert forall|i: int| 0 <= i < handles.len() implies holders.contains(
        #[trigger] handles[i],
    ) by {
        let handle = s.cpu_pool[i].handle;
        assert(s.busy(handle));
        if exists|k: int| #[trigger] s.slot_holds(k, handle) {
            let k = choose|k: int| #[trigger] s.slot_holds(k, handle);
            assert(holders[k] == handle);
        } else {
            assert(holders[SLOTS as int] == handle);
        }
    }
    assert(handles.no_duplicates()) by {
        assert forall|i: int, j: int|
            0 <= i < handles.len() && 0 <= j < handles.len() && i != j implies handles[i]
            != handles[j] by {
            assert(s.cpu_pool[i].handle == handles[i]);
            assert(s.cpu_pool[j].handle == handles[j]);
        }
    }
    distinct_fit(handles, holders);
}

proof fn next_keeps_pool_small(s: EncoderState, event: Event)
    requires
        s.wf(),
        s.accepts(event),
        pool_small(s),
        event is Alloc && event->Alloc_0 != 0 ==> !s.holds(event->Alloc_0),
    ensures
        pool_small(s.next(event).0),
{
    let t = s.next(event).0;
    match (s.phase, event) {
        (Phase::AllocNv12, Event::Alloc(handle)) => {
            assert forall|i: int, j: int| 0 <= i < j < t.cpu_pool.len() implies (
            #[trigger] t.cpu_pool[i]).handle != (#[trigger] t.cpu_pool[j]).handle by {
                assert(t.cpu_pool[i] == s.cpu_pool[i]);
                if j < s.cpu_pool.len() {
                    assert(t.cpu_pool[j] == s.cpu_pool[j]);
                }
            }
        },
        (Phase::Upload, Event::Upload(status)) => {
            assert(t.cpu_pool == s.cpu_pool);
            if t.phase is AllocNv12 {
                let p = |x: JetsonSurface| !s.busy(x.handle);
                first_where_is_first(s.cpu_pool, p);
                assert forall|i: int| 0 <= i < s.cpu_pool.len() implies s.busy(
                    (#[trigger] s.cpu_pool[i]).handle,
                ) by {
                    assert(!p(s.cpu_pool[i]));
                }
                busy_pool_is_small(s);
            }
        },
        _ => {
            assert(t.cpu_pool == s.cpu_pool);
        },
    }
}

/// The CPU pool stays small: a surface is added only where every one is in a slot or is the
/// last frame, so that their number is bounded by that of the slots.
pub proof fn cpu_pool_stays_small(
    s: EncoderState,
    input: EncodeInput,
    ms: i64,
    events: Seq<Event>,
    end: Next,
)
    requires
        dialogue(s, input, ms, events, end),
        pool_small(s),
        allocates_fresh(s.begin(input, ms), events),
    ensures
        pool_small(end.0),
        forall|config: JetsonEncoderConfig, bitrate: u32|
            pool_small(#[trigger] EncoderState::fresh(config, bitrate)),
    decreases events.len(),
{
    if events.len() == 0 {
        assert(end.0.cpu_pool == s.cpu_pool);
        assert(!(end.0.phase is AllocNv12));
    } else {
        let front = events.drop_last();
        let mid = after(s.begin(input, ms), front);
        cpu_pool_stays_small(s, input, ms, front, mid);
        dialogue_is_linked(s, input, ms, front, mid);
        next_keeps_pool_small(mid.0, events.last());
    }
}

/// A call gives up the search for a slot only where the device released none, neither at once
/// nor within the wait: every slot is still taken.
pub proof fn search_fails_only_with_all_slots_taken(
    s: EncoderState,
    input: EncodeInput,
    ms: i64,
    events: Seq<Event>,
    end: Next,
)
    requires
        dialogue(s, input, ms, events, end),
        end.1 == Action::Done(Err::<VideoView, JetsonError>(JetsonError::NoFreeSlot)),
    ensures
        end.0.free_slot() is None,
        forall|i: int| 0 <= i < SLOTS ==> (#[trigger] end.0.slots[i]) is Some,
{
    dialogue_is_linked(s, input, ms, events, end);
    let p = |x: Option<JetsonSurface>| x is None;
    first_where_is_first(end.0.slots, p);
    assert forall|i: int| 0 <= i < SLOTS implies (#[trigger] end.0.slots[i]) is Some by {
        assert(!p(end.0.slots[i]));
    }
}

/// A slot that is released during the wait is used: where the search would end with a slot free,
/// the frame is queued in the first such slot.
pub proof fn slot_released_in_time_is_used(s: EncoderState, index: i32)
    requires
        s.wf(),
        s.phase == Phase::Reclaim(ReclaimFor::Slot { retry: true }),
        !(0 <= index < SLOTS),
        s.free_slot() is Some,
    ensures
        s.next(Event::Reclaim(index)).0.phase == Phase::Queue(s.free_slot()->0 as usize),
        s.next(Event::Reclaim(index)).1 == (Action::<VideoView>::Queue {
            index: s.free_slot()->0 as i32,
            surface: s.last->0.handle,
            pts_us: s.pts_us as i64,
        }),
{
}

/// The input can be encoded: the pixels are all there, there is a frame to repeat, or the
/// texture is one of this crate's surfaces.
pub open spec fn valid_input(s: EncoderState, input: EncodeInput) -> bool {
    match input {
        EncodeInput::YUV(data) => data@.len() >= frame_bytes(s.config),
        EncodeInput::Texture((ptr, tag)) => if ptr == 0 {
            s.last is Some
        } else {
            tag == TEXTURE_TAG
        },
    }
}

/// The device does in the state `t` what it was asked: `event` is no failure, a picture is not
/// empty, a texture leads to a frame of the encoder's size, and the search for a slot does not
/// end with none free.
pub open spec fn goes_well(t: EncoderState, event: Event) -> bool {
    match event {
        Event::Alloc(handle) => handle != 0,
        Event::Reclaim(index) => t.phase == Phase::Reclaim(ReclaimFor::Slot { retry: true }) && !(0
            <= index < SLOTS) ==> t.free_slot() is Some,
        Event::Upload(status) => status == 0,
        Event::Convert(status) => status == 0,
        Event::Adopt(surface) => t.fits(surface),
        Event::Queue { status, os_error } => status == 0,
        Event::Dequeue { index, data, key, pts_us, os_error } => index >= 0 && data@.len() > 0,
        Event::Release => true,
    }
}

/// The device does throughout what it was asked.
pub open spec fn all_goes_well(start: Next, events: Seq<Event>) -> bool
    decreases events.len(),
{
    events.len() == 0 || {
        &&& all_goes_well(start, events.drop_last())
        &&& goes_well(after(start, events.drop_last()).0, events.last())
    }
}

/// The call has not failed, and once it has taken a picture it has one to return.
spec fn on_course(now: Next) -> bool {
    match now.0.phase {
        Phase::Idle => now.1 is Done && now.1->Done_0 is Ok,
        Phase::Release | Phase::Reclaim(ReclaimFor::Finish) => now.0.frames.len() > 0,
        _ => true,
    }
}

proof fn next_is_on_course(
    s: EncoderState,
    ms: i64,
    front: Seq<Event>,
    mid: Next,
    event: Event,
)
    requires
        s.wf(),
        linked(s, ms, gathered(front), mid),
        mid.0.accepts(event),
        goes_well(mid.0, event),
        on_course(mid),
    ensures
        on_course(mid.0.next(event)),
{
    next_is_linked(s, ms, front, mid, event);
}

proof fn dialogue_is_on_course(
    s: EncoderState,
    input: EncodeInput,
    ms: i64,
    events: Seq<Event>,
    end: Next,
)
    requires
        dialogue(s, input, ms, events, end),
        valid_input(s, input),
        all_goes_well(s.begin(input, ms), events),
    ensures
        on_course(end),
    decreases events.len(),
{
    if events.len() > 0 {
        let front = events.drop_last();
        let mid = after(s.begin(input, ms), front);
        dialogue_is_on_course(s, input, ms, front, mid);
        dialogue_is_linked(s, input, ms, front, mid);
        next_is_on_course(s, ms, front, mid, events.last());
    }
}

/// Every call has a finished frame to return: where the input is valid and the device does
/// throughout what it was asked, a call that is over has succeeded. This holds of any encoder,
/// however many calls it has served and whether or not they failed.
pub proof fn well_served_call_succeeds(
    s: EncoderState,
    input: EncodeInput,
    ms: i64,
    events: Seq<Event>,
    end: Next,
)
    requires
        dialogue(s, input, ms, events, end),
        valid_input(s, input),
        all_goes_well(s.begin(input, ms), events),
        end.1 is Done,
    ensures
        end.1->Done_0 is Ok,
        end.1->Done_0->Ok_0.frames() == gathered(events),
        gathered(events).len() >= 1,
{
    dialogue_is_on_course(s, input, ms, events, end);
    dialogue_is_linked(s, input, ms, events, end);
}

/// How far a call is from its end.
pub open spec fn distance(t: EncoderState) -> int {
    let queueing = 2 * (t.in_flight + t.copies) + 2 + 3 * t.copies;
    let acquiring = 2 * (t.in_flight + copies_of(t)) + 2 + 3 * copies_of(t);
    match t.phase {
        Phase::Idle => 0,
        Phase::Reclaim(ReclaimFor::Finish) => 1,
        Phase::Dequeue => 2 * t.in_flight + 2,
        Phase::Release => 2 * t.in_flight + 3,
        Phase::Queue(_) => queueing - 2,
        Phase::Reclaim(ReclaimFor::Slot { retry: true }) => queueing - 1,
        Phase::Reclaim(ReclaimFor::Slot { retry: false }) => queueing,
        Phase::Convert(_) | Phase::Adopt => acquiring + 1,
        Phase::AllocNv12 => acquiring + 2,
        Phase::Upload => acquiring + 3,
        Phase::Reclaim(ReclaimFor::Upload) => acquiring + 4,
        Phase::AllocUpload => acquiring + 5,
    }
}

/// `event` reports a finished slot.
pub open spec fn reports_slot(event: Event) -> bool {
    event is Reclaim && 0 <= event->Reclaim_0 < SLOTS
}

/// A call comes to its end: every answer brings it nearer, but for a report of a finished slot,
/// which takes it no further away.
pub proof fn answer_brings_the_end_nearer(t: EncoderState, event: Event)
    requires
        t.wf(),
        t.accepts(event),
    ensures
        distance(t) > 0,
        0 <= distance(t.next(event).0) <= distance(t),
        !reports_slot(event) ==> distance(t.next(event).0) < distance(t),
{
    next_keeps_wf(t, event);
}

/// The answer of a device that does what it is asked in the state `t`.
spec fn good_answer(t: EncoderState, data: Vec<u8>, words: String) -> Event {
    match t.phase {
        Phase::AllocUpload | Phase::AllocNv12 => Event::Alloc(1),
        Phase::Reclaim(why) => if why == (ReclaimFor::Slot { retry: true }) && t.free_slot()
            is None {
            Event::Reclaim(0)
        } else {
            Event::Reclaim(SLOTS as i32)
        },
        Phase::Upload => Event::Upload(0),
        Phase::Convert(_) => Event::Convert(0),
        Phase::Adopt => Event::Adopt(
            JetsonSurface {
                handle: 1,
                width: t.config.width,
                height: t.config.height,
                nv12: true,
            },
        ),
        Phase::Queue(_) => Event::Queue { status: 0, os_error: words },
        Phase::Dequeue => Event::Dequeue { index: 0, data, key: 0, pts_us: 0, os_error: words },
        Phase::Release | Phase::Idle => Event::Release,
    }
}

proof fn call_can_go_on(
    s: EncoderState,
    input: EncodeInput,
    ms: i64,
    events: Seq<Event>,
    data: Vec<u8>,
    words: String,
) -> (all: Seq<Event>)
    requires
        dialogue(s, input, ms, events, after(s.begin(input, ms), events)),
        all_goes_well(s.begin(input, ms), events),
        data@.len() > 0,
    ensures
        dialogue(s, input, ms, all, after(s.begin(input, ms), all)),
        all_goes_well(s.begin(input, ms), all),
        after(s.begin(input, ms), all).1 is Done,
    decreases
            distance(after(s.begin(input, ms), events).0),
            (if after(s.begin(input, ms), events).0.free_slot() is None {
                1int
            } else {
                0
            }),
{
    let start = s.begin(input, ms);
    let now = after(start, events);
    dialogue_is_linked(s, input, ms, events, now);
    if now.0.phase is Idle {
        events
    } else {
        let event = good_answer(now.0, data, words);
        let more = events.push(event);
        assert(more.drop_last() =~= events);
        answer_brings_the_end_nearer(now.0, event);
        if reports_slot(event) {
            let p = |x: Option<JetsonSurface>| x is None;
            let t = now.0.next(event).0;
            first_where_is_first(t.slots, p);
            assert(p(t.slots[0]));
        }
        call_can_go_on(s, input, ms, more, data, words)
    }
}

/// Every call with a valid input can succeed: there are answers, none of them a failure, that
/// bring it to its end, where it returns what it gathered.
pub proof fn every_call_can_succeed(
    s: EncoderState,
    input: EncodeInput,
    ms: i64,
    data: Vec<u8>,
    words: String,
) -> (events: Seq<Event>)
    requires
        s.wf(),
        s.ready(input, ms),
        valid_input(s, input),
        data@.len() > 0,
    ensures
        dialogue(s, input, ms, events, after(s.begin(input, ms), events)),
        all_goes_well(s.begin(input, ms), events),
        after(s.begin(input, ms), events).1 is Done,
        after(s.begin(input, ms), events).1->Done_0 is Ok,
{
    let events = call_can_go_on(s, input, ms, Seq::empty(), data, words);
    well_served_call_succeeds(s, input, ms, events, after(s.begin(input, ms), events));
    events
}

/// The dialogue before its last answer.
proof fn dialogue_had_a_step_before(
    s: EncoderState,
    input: EncodeInput,
    ms: i64,
    events: Seq<Event>,
    end: Next,
) -> (mid: Next)
    requires
        dialogue(s, input, ms, events, end),
        events.len() > 0,
    ensures
        mid == after(s.begin(input, ms), events.drop_last()),
        dialogue(s, input, ms, events.drop_last(), mid),
        linked(s, ms, gathered(events.drop_last()), mid),
        mid.0.accepts(events.last()),
        end == mid.0.next(events.last()),
{
    let mid = after(s.begin(input, ms), events.drop_last());
    dialogue_is_linked(s, input, ms, events.drop_last(), mid);
    mid
}

/// `e` hands over a picture.
pub open spec fn is_picture(e: Event) -> bool {
    match e {
        Event::Dequeue { index, data, key, pts_us, os_error } => index >= 0 && data@.len() > 0,
        _ => false,
    }
}

/// The answers among `events` that hand over a picture, in their order.
pub open spec fn pictures(events: Seq<Event>) -> Seq<Event>
    decreases events.len(),
{
    if events.len() == 0 {
        Seq::empty()
    } else if is_picture(events.last()) {
        pictures(events.drop_last()).push(events.last())
    } else {
        pictures(events.drop_last())
    }
}

/// `frame` is the picture that `e` handed over: every byte of its data, a key frame unless its
/// flag is zero, and its time in whole milliseconds.
pub open spec fn is_picture_of(frame: FrameView, e: Event) -> bool {
    match e {
        Event::Dequeue { index, data, key, pts_us, os_error } => {
            &&& frame.data == data@
            &&& frame.key == (key != 0)
            &&& pts_us >= 0 ==> 0 <= 1000 * frame.pts <= pts_us < 1000 * frame.pts + 1000
            &&& pts_us <= 0 ==> 1000 * frame.pts - 1000 < pts_us <= 1000 * frame.pts <= 0
        },
        _ => false,
    }
}

proof fn gathered_are_the_pictures(events: Seq<Event>)
    ensures
        gathered(events).len() == pictures(events).len(),
        forall|i: int|
            0 <= i < gathered(events).len() ==> is_picture_of(
                #[trigger] gathered(events)[i],
                pictures(events)[i],
            ),
    decreases events.len(),
{
    if events.len() > 0 {
        gathered_are_the_pictures(events.drop_last());
    }
}

/// The pictures that a call returns are those that the device handed over: as many, in their order,
/// each with exactly the bytes of its own buffer, whatever their number. The message is one of the
/// encoder's codec.
pub proof fn returned_pictures_hold_the_bytes_handed_over(
    s: EncoderState,
    input: EncodeInput,
    ms: i64,
    events: Seq<Event>,
    end: Next,
    video: VideoView,
)
    requires
        dialogue(s, input, ms, events, end),
        end.1 == Action::Done(Ok::<VideoView, JetsonError>(video)),
    ensures
        video.frames().len() == pictures(events).len(),
        pictures(events).len() >= 1,
        forall|i: int|
            0 <= i < video.frames().len() ==> is_picture_of(
                #[trigger] video.frames()[i],
                pictures(events)[i],
            ),
        video is H264s <==> s.config.format == CodecFormat::H264,
        video is H265s <==> s.config.format == CodecFormat::H265,
        video is Av1s <==> s.config.format == CodecFormat::AV1,
{
    dialogue_is_linked(s, input, ms, events, end);
    gathered_are_the_pictures(events);
}

/// `t` has taken its frame: it is being queued, or pictures are being taken.
pub open spec fn has_its_frame(t: EncoderState) -> bool {
    match t.phase {
        Phase::Reclaim(ReclaimFor::Slot { .. })
        | Phase::Queue(_)
        | Phase::Dequeue
        | Phase::Release
        | Phase::Reclaim(ReclaimFor::Finish)
        | Phase::Idle => true,
        _ => false,
    }
}

proof fn frame_stays(t: EncoderState, event: Event)
    requires
        t.wf(),
        t.accepts(event),
        has_its_frame(t),
    ensures
        has_its_frame(t.next(event).0),
        t.next(event).0.last == t.last,
        t.next(event).1 is Queue ==> t.next(event).1->surface == t.last->0.handle,
{
    free_slot_in_range();
}

/// The frame that a CPU picture was converted into is the one that is encoded. Once the conversion
/// that a call asked for has succeeded, its destination is the last frame, to the end of the call
/// and beyond, and is what every `Queue` of the call queues.
pub proof fn converted_frame_is_the_one_encoded(
    s: EncoderState,
    input: EncodeInput,
    ms: i64,
    events: Seq<Event>,
    end: Next,
    k: int,
    request: ConvertRequest,
)
    requires
        dialogue(s, input, ms, events, end),
        0 <= k < events.len(),
        after(s.begin(input, ms), events.take(k)).1 == Action::<VideoView>::Convert(request),
        events[k] == Event::Convert(0),
    ensures
        end.0.last is Some,
        end.0.last->0.handle == request.dst,
        end.1 is Queue ==> end.1->surface == request.dst,
        has_its_frame(end.0),
    decreases events.len(),
{
    let mid = dialogue_had_a_step_before(s, input, ms, events, end);
    if events.len() == k + 1 {
        assert(events.take(k) =~= events.drop_last());
        free_slot_in_range();
    } else {
        let front = events.drop_last();
        assert(front.take(k) =~= events.take(k));
        converted_frame_is_the_one_encoded(s, input, ms, front, mid, k, request);
        frame_stays(mid.0, events.last());
    }
}

/// The frame behind a texture is the one that is encoded. Once a call has been told a surface that
/// it does not refuse, that surface is the last frame and is what every `Queue` of the call queues.
pub proof fn adopted_frame_is_the_one_encoded(
    s: EncoderState,
    input: EncodeInput,
    ms: i64,
    events: Seq<Event>,
    end: Next,
    surface: JetsonSurface,
)
    requires
        dialogue(s, input, ms, events, end),
        events.len() > 0,
        events[0] == Event::Adopt(surface),
        surface.nv12,
        surface.width == s.config.width,
        surface.height == s.config.height,
    ensures
        end.0.last == Some(surface),
        end.1 is Queue ==> end.1->surface == surface.handle,
        has_its_frame(end.0),
    decreases events.len(),
{
    let mid = dialogue_had_a_step_before(s, input, ms, events, end);
    if events.len() == 1 {
        free_slot_in_range();
    } else {
        adopted_frame_is_the_one_encoded(s, input, ms, events.drop_last(), mid, surface);
        frame_stays(mid.0, events.last());
    }
}

/// A repeat encodes the last frame: it stays the last frame, and is what every `Queue` queues.
pub proof fn repeated_frame_is_the_last_one(
    s: EncoderState,
    tag: usize,
    ms: i64,
    events: Seq<Event>,
    end: Next,
)
    requires
        dialogue(s, EncodeInput::Texture((0, tag)), ms, events, end),
        s.last is Some,
    ensures
        end.0.last == s.last,
        end.1 is Queue ==> end.1->surface == s.last->0.handle,
        has_its_frame(end.0),
    decreases events.len(),
{
    let input = EncodeInput::Texture((0, tag));
    if events.len() == 0 {
        free_slot_in_range();
    } else {
        let mid = dialogue_had_a_step_before(s, input, ms, events, end);
        repeated_frame_is_the_last_one(s, tag, ms, events.drop_last(), mid);
        frame_stays(mid.0, events.last());
    }
}

/// What a conversion reads is what this call uploaded: the step before it, or the one before an
/// allocation, was the copy of this call's pixels to the surface that is converted, and it
/// succeeded. It was asked for with the encoder's size and a row of four bytes a pixel.
pub proof fn conversion_reads_the_pixels_of_the_call(
    s: EncoderState,
    input: EncodeInput,
    ms: i64,
    events: Seq<Event>,
    end: Next,
    request: ConvertRequest,
) -> (k: int)
    requires
        dialogue(s, input, ms, events, end),
        end.1 == Action::<VideoView>::Convert(request),
    ensures
        input is YUV,
        0 <= k < events.len(),
        events[k] == Event::Upload(0),
        after(s.begin(input, ms), events.take(k)).1 == (Action::<VideoView>::Upload {
            dst: request.src,
            stride: ((s.config.width * 4) % 0x1_0000_0000) as u32,
            width: (s.config.width as int % 0x1_0000_0000) as u32,
            height: (s.config.height as int % 0x1_0000_0000) as u32,
        }),
        request.src == end.0.upload->0.handle,
{
    let mid = dialogue_had_a_step_before(s, input, ms, events, end);
    pixels_come_from_the_input(s, input, ms, events, end);
    let front = events.drop_last();
    upload_is_asked_for_in_full(s, input, ms, front, mid);
    if mid.0.phase is Upload {
        assert(events.take(front.len() as int) =~= front);
        front.len() as int
    } else {
        let early = dialogue_had_a_step_before(s, input, ms, front, mid);
        let first = front.drop_last();
        upload_is_asked_for_in_full(s, input, ms, first, early);
        assert(events.take(first.len() as int) =~= first);
        assert(front.last() == events[first.len() as int]);
        first.len() as int
    }
}

/// The CPU path is being gone.
spec fn on_cpu_path(t: EncoderState) -> bool {
    match t.phase {
        Phase::AllocUpload
        | Phase::Reclaim(ReclaimFor::Upload)
        | Phase::Upload
        | Phase::AllocNv12
        | Phase::Convert(_) => true,
        _ => false,
    }
}

proof fn pixels_come_from_the_input(
    s: EncoderState,
    input: EncodeInput,
    ms: i64,
    events: Seq<Event>,
    end: Next,
)
    requires
        dialogue(s, input, ms, events, end),
        on_cpu_path(end.0),
    ensures
        input matches EncodeInput::YUV(data) && data@.len() >= s.config.width * s.config.height * 4,
    decreases events.len(),
{
    if events.len() > 0 {
        let mid = dialogue_had_a_step_before(s, input, ms, events, end);
        pixels_come_from_the_input(s, input, ms, events.drop_last(), mid);
    }
}

/// Pixels are copied only for a CPU frame that has them all, to the encoder's own upload surface,
/// which has its size; and they are described to the device as they are.
pub proof fn upload_is_asked_for_in_full(
    s: EncoderState,
    input: EncodeInput,
    ms: i64,
    events: Seq<Event>,
    end: Next,
)
    requires
        dialogue(s, input, ms, events, end),
    ensures
        end.1 matches Action::Upload { dst, stride, width, height } ==> {
            &&& input matches EncodeInput::YUV(data) && data@.len() >= s.config.width
                * s.config.height * 4
            &&& end.0.upload is Some
            &&& end.0.upload->0.handle == dst
            &&& end.0.upload->0.width == s.config.width
            &&& end.0.upload->0.height == s.config.height
            &&& stride == (s.config.width * 4) % 0x1_0000_0000
            &&& width == s.config.width as int % 0x1_0000_0000
            &&& height == s.config.height as int % 0x1_0000_0000
        },
{
    dialogue_is_linked(s, input, ms, events, end);
    if end.1 is Upload {
        pixels_come_from_the_input(s, input, ms, events, end);
        dialogue_had_a_step_before(s, input, ms, events, end);
    }
}

/// A CPU picture is queued only once it has been converted in the same call.
pub proof fn cpu_frame_is_converted_before_it_is_queued(
    s: EncoderState,
    input: EncodeInput,
    ms: i64,
    events: Seq<Event>,
    end: Next,
) -> (k: int)
    requires
        dialogue(s, input, ms, events, end),
        input is YUV,
        has_its_frame(end.0),
        !(end.1 is Done && end.1->Done_0 is Err),
    ensures
        0 <= k < events.len(),
        events[k] == Event::Convert(0),
        after(s.begin(input, ms), events.take(k)).1 is Convert,
    decreases events.len(),
{
    let mid = dialogue_had_a_step_before(s, input, ms, events, end);
    let front = events.drop_last();
    if mid.0.phase is Convert {
        assert(events.take(front.len() as int) =~= front);
        front.len() as int
    } else {
        no_texture_without_a_texture(s, input, ms, front, mid);
        let k = cpu_frame_is_converted_before_it_is_queued(s, input, ms, front, mid);
        assert(events.take(k) =~= front.take(k));
        k
    }
}

proof fn no_texture_without_a_texture(
    s: EncoderState,
    input: EncodeInput,
    ms: i64,
    events: Seq<Event>,
    end: Next,
)
    requires
        dialogue(s, input, ms, events, end),
        input is YUV,
    ensures
        !(end.0.phase is Adopt),
{
    if end.0.phase is Adopt {
        adoption_comes_first(s, input, ms, events);
    }
}

/// A texture is queued only once the caller has told the surface behind its own address, and that
/// surface is an NV12 surface of the encoder's size.
pub proof fn texture_is_looked_up_before_it_is_queued(
    s: EncoderState,
    ptr: usize,
    tag: usize,
    ms: i64,
    events: Seq<Event>,
    end: Next,
) -> (surface: JetsonSurface)
    requires
        dialogue(s, EncodeInput::Texture((ptr, tag)), ms, events, end),
        ptr != 0,
        has_its_frame(end.0),
        !(end.1 is Done && end.1->Done_0 is Err),
    ensures
        tag == 0x6a65_7473,
        s.begin(EncodeInput::Texture((ptr, tag)), ms).1 == (Action::<VideoView>::Adopt { ptr }),
        events.len() > 0,
        events[0] == Event::Adopt(surface),
        surface.nv12,
        surface.width == s.config.width,
        surface.height == s.config.height,
    decreases events.len(),
{
    let input = EncodeInput::Texture((ptr, tag));
    let mid = dialogue_had_a_step_before(s, input, ms, events, end);
    if mid.0.phase is Adopt {
        adoption_comes_first(s, input, ms, events.drop_last());
        events.last()->Adopt_0
    } else {
        if on_cpu_path(mid.0) {
            pixels_come_from_the_input(s, input, ms, events.drop_last(), mid);
        }
        texture_is_looked_up_before_it_is_queued(s, ptr, tag, ms, events.drop_last(), mid)
    }
}

/// Which inputs are refused, and with what: a CPU frame with fewer than four bytes a pixel, a
/// repeat where there is no frame yet, and a texture without the tag. Nothing else is refused
/// before the device has been asked: for the upload surface where there is none, for finished
/// slots before an upload, for the surface behind the texture, or for the last frame to be queued.
pub proof fn input_is_refused_for_cause(s: EncoderState, input: EncodeInput, ms: i64)
    requires
        s.wf(),
        s.ready(input, ms),
    ensures
        ({
            let need = s.config.width * s.config.height * 4;
            let action = s.begin(input, ms).1;
            match input {
                EncodeInput::YUV(data) => if data@.len() < need {
                    action == Action::Done(
                        Err::<VideoView, JetsonError>(
                            JetsonError::FrameTooSmall {
                                len: data@.len() as usize,
                                need: need as usize,
                            },
                        ),
                    )
                } else if s.upload is None {
                    action == Action::<VideoView>::Alloc(
                        AllocRequest { width: s.config.width, height: s.config.height, format: 1 },
                    )
                } else {
                    action == (Action::<VideoView>::Reclaim { timeout_ms: 0 })
                },
                EncodeInput::Texture((ptr, tag)) => if ptr == 0 && s.last is None {
                    action == Action::Done(
                        Err::<VideoView, JetsonError>(JetsonError::NoFrameToRepeat),
                    )
                } else if ptr != 0 && tag != 0x6a65_7473 {
                    action == Action::Done(
                        Err::<VideoView, JetsonError>(JetsonError::NotJetsonTexture),
                    )
                } else if ptr != 0 {
                    action == (Action::<VideoView>::Adopt { ptr })
                } else {
                    action is Queue || action == (Action::<VideoView>::Reclaim { timeout_ms: 0 })
                },
            }
        }),
{
}

/// As a call begins, nothing changes of what the encoder holds, but for the time it remembers.
pub proof fn beginning_changes_no_surface(s: EncoderState, input: EncodeInput, ms: i64)
    requires
        s.wf(),
        s.ready(input, ms),
    ensures
        ({
            let t = s.begin(input, ms).0;
            &&& t.config == s.config
            &&& t.bitrate == s.bitrate
            &&& t.slots == s.slots
            &&& t.upload == s.upload
            &&& t.cpu_pool == s.cpu_pool
            &&& t.last == s.last
            &&& t.in_flight == s.in_flight
            &&& t.first == s.first
            &&& t.frames.len() == 0
            &&& !(t.phase is Idle) ==> t.pts_us == (if ms < 0 {
                0
            } else {
                ms * 1000
            })
        }),
{
}

/// `event` is a failure, or in answer to the question for a finished slot says that there is none.
pub open spec fn fails(t: EncoderState, event: Event) -> bool {
    match event {
        Event::Alloc(handle) => handle == 0,
        Event::Upload(status) => status != 0,
        Event::Convert(status) => status != 0,
        Event::Adopt(surface) => !surface.nv12 || surface.width != t.config.width || surface.height
            != t.config.height,
        Event::Queue { status, os_error } => status != 0,
        Event::Dequeue { index, data, key, pts_us, os_error } => index < -1,
        Event::Reclaim(index) => index < 0 || index >= 4,
        Event::Release => false,
    }
}

/// Each failing answer ends the call with its own error, and no other answer ends it with one: a
/// refusal to allocate, a failed copy or conversion, a texture that does not fit, and a failed
/// queueing or taking with the system's words. Where no slot is reported finished, the call fails
/// only if it has waited for one and all four are taken, or if it is over and has no picture.
pub proof fn failing_answer_gives_its_error(t: EncoderState, event: Event)
    requires
        t.wf(),
        t.accepts(event),
    ensures
        ({
            let action = t.next(event).1;
            let failed = action is Done && action->Done_0 is Err;
            let error = action->Done_0->Err_0;
            let taken = forall|i: int| 0 <= i < 4 ==> (#[trigger] t.slots[i]) is Some;
            &&& failed ==> fails(t, event)
            &&& fails(t, event) && !(event is Reclaim) ==> failed
            &&& failed ==> match event {
                Event::Alloc(_) => error == (JetsonError::AllocFailed {
                    width: t.config.width,
                    height: t.config.height,
                }),
                Event::Upload(_) => error == JetsonError::UploadFailed,
                Event::Convert(_) => error == JetsonError::TransformFailed,
                Event::Adopt(surface) => error == (JetsonError::TextureMismatch {
                    width: surface.width,
                    height: surface.height,
                    want_width: t.config.width,
                    want_height: t.config.height,
                }),
                Event::Queue { status, os_error } => error == (JetsonError::QueueFailed {
                    os_error,
                }),
                Event::Dequeue { index, data, key, pts_us, os_error } => error == (
                JetsonError::DequeueFailed { os_error }),
                Event::Reclaim(_) => {
                    ||| t.phase == Phase::Reclaim(ReclaimFor::Slot { retry: true }) && taken
                        && error == JetsonError::NoFreeSlot
                    ||| t.phase == Phase::Reclaim(ReclaimFor::Finish) && t.frames.len() == 0
                        && error == JetsonError::NoValidFrame
                },
                Event::Release => false,
            }
            &&& event is Reclaim && fails(t, event) && t.phase == Phase::Reclaim(
                ReclaimFor::Slot { retry: true },
            ) && taken ==> failed
            &&& event is Reclaim && fails(t, event) && t.phase == Phase::Reclaim(ReclaimFor::Finish)
                ==> action is Done && (failed <==> t.frames.len() == 0)
        }),
{
    let p = |x: Option<JetsonSurface>| x is None;
    first_where_is_first(t.slots, p);
    free_slot_in_range();
    if t.free_slot() is None {
        assert forall|i: int| 0 <= i < 4 implies (#[trigger] t.slots[i]) is Some by {
            assert(!p(t.slots[i]));
        }
    } else {
        assert(p(t.slots[t.free_slot()->0]));
    }
}

/// What an answer changes, and that it changes nothing else: a report empties its slot, a frame
/// that was queued fills the slot it was queued in, the count of frames in flight follows what is
/// queued and taken, and a surface is remembered when it is allocated, converted into or told.
pub proof fn answer_changes_what_it_is_about(t: EncoderState, event: Event)
    requires
        t.wf(),
        t.accepts(event),
    ensures
        ({
            let u = t.next(event).0;
            let ok = !fails(t, event);
            let w = t.config.width;
            let h = t.config.height;
            &&& u.config == t.config
            &&& u.bitrate == t.bitrate
            &&& u.slots == match event {
                Event::Reclaim(index) => if ok {
                    t.slots.update(index as int, None)
                } else {
                    t.slots
                },
                Event::Queue { .. } => if ok {
                    t.slots.update(t.phase->Queue_0 as int, t.last)
                } else {
                    t.slots
                },
                _ => t.slots,
            }
            &&& u.in_flight == match event {
                Event::Queue { .. } => if ok {
                    t.in_flight + 1
                } else {
                    t.in_flight
                },
                Event::Dequeue { index, .. } => if index >= 0 {
                    t.in_flight - 1
                } else if index == -1 {
                    1
                } else {
                    t.in_flight
                },
                _ => t.in_flight,
            }
            &&& u.last == match event {
                Event::Adopt(surface) => if ok {
                    Some(surface)
                } else {
                    t.last
                },
                Event::Convert(_) => if ok {
                    Some(t.phase->Convert_0)
                } else {
                    t.last
                },
                _ => t.last,
            }
            &&& u.upload == match event {
                Event::Alloc(handle) => if ok && t.upload is None {
                    Some(JetsonSurface { handle, width: w, height: h, nv12: false })
                } else {
                    t.upload
                },
                _ => t.upload,
            }
            &&& u.cpu_pool == match event {
                Event::Alloc(handle) => if ok && t.upload is Some {
                    t.cpu_pool.push(JetsonSurface { handle, width: w, height: h, nv12: true })
                } else {
                    t.cpu_pool
                },
                _ => t.cpu_pool,
            }
            &&& u.first == (t.first && !(t.next(event).1 is Done && t.next(event).1->Done_0 is Ok))
            &&& !(u.phase is Idle) ==> u.pts_us == t.pts_us
        }),
{
    free_slot_in_range();
}

/// The surface at `handle` is in a slot or is the last frame.
pub open spec fn needed(t: EncoderState, handle: usize) -> bool {
    ||| exists|i: int|
        0 <= i < 4 && (#[trigger] t.slots[i]) is Some && t.slots[i]->0.handle == handle
    ||| t.last is Some && t.last->0.handle == handle
}

proof fn busy_is_needed(t: EncoderState, handle: usize)
    requires
        t.slots.len() == SLOTS,
    ensures
        t.busy(handle) == needed(t, handle),
{
    if t.busy(handle) && exists|i: int| #[trigger] t.slot_holds(i, handle) {
        let i = choose|i: int| #[trigger] t.slot_holds(i, handle);
        assert(t.slots[i] is Some && t.slots[i]->0.handle == handle);
    }
    if needed(t, handle) && !(t.last is Some && t.last->0.handle == handle) {
        let i = choose|i: int|
            0 <= i < 4 && (#[trigger] t.slots[i]) is Some && t.slots[i]->0.handle == handle;
        assert(t.slot_holds(i, handle));
    }
}

/// An encoder holds exactly the surfaces in its slots, its last frame, its upload surface and its
/// pool.
pub proof fn surfaces_held_are_those_referred_to(t: EncoderState, handle: usize)
    requires
        t.wf(),
    ensures
        t.holds(handle) <==> {
            ||| needed(t, handle)
            ||| t.upload is Some && t.upload->0.handle == handle
            ||| exists|i: int|
                0 <= i < t.cpu_pool.len() && (#[trigger] t.cpu_pool[i]).handle == handle
        },
{
    busy_is_needed(t, handle);
}

/// Where an uploaded picture goes: into the first surface of the pool that is neither in a slot nor
/// the last frame, from the upload surface; and only where there is none is another allocated, an
/// NV12 surface of the encoder's size, into which it then goes.
pub proof fn uploaded_picture_goes_to_the_first_free_surface(t: EncoderState, i: int)
    requires
        t.wf(),
        t.phase is Upload,
        0 <= i <= t.cpu_pool.len(),
        forall|j: int| 0 <= j < i ==> needed(t, (#[trigger] t.cpu_pool[j]).handle),
        i < t.cpu_pool.len() ==> !needed(t, t.cpu_pool[i].handle),
    ensures
        ({
            let u = t.next(Event::Upload(0));
            &&& i < t.cpu_pool.len() ==> u.0.phase == Phase::Convert(t.cpu_pool[i]) && u.1
                == Action::<VideoView>::Convert(
                ConvertRequest { src: t.upload->0.handle, dst: t.cpu_pool[i].handle },
            )
            &&& i == t.cpu_pool.len() ==> u.1 == Action::<VideoView>::Alloc(
                AllocRequest { width: t.config.width, height: t.config.height, format: 0 },
            )
            &&& i == t.cpu_pool.len() ==> forall|handle: usize|
                handle != 0 ==> (#[trigger] u.0.next(Event::Alloc(handle))).1
                    == Action::<VideoView>::Convert(
                    ConvertRequest { src: t.upload->0.handle, dst: handle },
                ) && u.0.next(Event::Alloc(handle)).0.phase == Phase::Convert(
                    JetsonSurface {
                        handle,
                        width: t.config.width,
                        height: t.config.height,
                        nv12: true,
                    },
                )
        }),
{
    let p = |x: JetsonSurface| !t.busy(x.handle);
    assert forall|j: int| 0 <= j < t.cpu_pool.len() implies t.busy(
        (#[trigger] t.cpu_pool[j]).handle,
    ) == needed(t, t.cpu_pool[j].handle) by {
        busy_is_needed(t, t.cpu_pool[j].handle);
    }
    if i < t.cpu_pool.len() {
        assert(is_first(t.cpu_pool, p, i));
        first_is_first_where(t.cpu_pool, p, i);
    } else {
        none_is_first_where(t.cpu_pool, p);
    }
}

/// A frame is queued in the first of the four slots that is empty, with the time of its call. Where
/// none is, finished slots are asked for without waiting; where there are none either, with a wait
/// of half a second.
pub proof fn frame_goes_to_the_first_empty_slot(
    s: EncoderState,
    input: EncodeInput,
    ms: i64,
    events: Seq<Event>,
    end: Next,
)
    requires
        dialogue(s, input, ms, events, end),
    ensures
        end.1 matches Action::Queue { index, surface, pts_us } ==> {
            &&& 0 <= index < 4
            &&& end.0.slots[index as int] is None
            &&& forall|j: int| 0 <= j < index ==> (#[trigger] end.0.slots[j]) is Some
            &&& end.0.phase == Phase::Queue(index as usize)
            &&& end.0.last is Some && end.0.last->0.handle == surface
            &&& pts_us == (if ms < 0 {
                0
            } else {
                ms * 1000
            })
        },
        end.1 matches Action::Reclaim { timeout_ms } ==> {
            &&& timeout_ms == 0 || timeout_ms == 500
            &&& timeout_ms == 500 ==> events.len() > 0 && events.last() is Reclaim && fails(
                end.0,
                events.last(),
            ) && forall|i: int| 0 <= i < 4 ==> (#[trigger] end.0.slots[i]) is Some
        },
{
    dialogue_is_linked(s, input, ms, events, end);
    let p = |x: Option<JetsonSurface>| x is None;
    if events.len() > 0 {
        let mid = dialogue_had_a_step_before(s, input, ms, events, end);
        queued_in_the_first_empty_slot(mid.0, events.last());
        if end.1 is Reclaim && end.1->Reclaim_timeout_ms != 0 {
            first_where_is_first(end.0.slots, p);
            assert forall|i: int| 0 <= i < 4 implies (#[trigger] end.0.slots[i]) is Some by {
                assert(!p(end.0.slots[i]));
            }
        }
    } else if end.1 is Queue {
        first_where_is_first(end.0.slots, p);
        assert forall|j: int| 0 <= j < end.1->Queue_index implies (
            #[trigger] end.0.slots[j]) is Some by {
            assert(!p(end.0.slots[j]));
        }
    }
}

proof fn queued_in_the_first_empty_slot(t: EncoderState, event: Event)
    requires
        t.wf(),
        t.accepts(event),
    ensures
        t.next(event).1 matches Action::Queue { index, surface, pts_us } ==> {
            let u = t.next(event).0;
            &&& 0 <= index < 4
            &&& u.slots[index as int] is None
            &&& forall|j: int| 0 <= j < index ==> (#[trigger] u.slots[j]) is Some
            &&& u.phase == Phase::Queue(index as usize)
        },
{
    let u = t.next(event).0;
    let p = |x: Option<JetsonSurface>| x is None;
    if t.next(event).1 is Queue {
        next_keeps_wf(t, event);
        first_where_is_first(u.slots, p);
        assert(u.free_slot() is Some);
        assert forall|j: int| 0 <= j < u.free_slot()->0 implies (#[trigger] u.slots[j]) is Some by {
            assert(!p(u.slots[j]));
        }
    }
}

/// What is asked for next. A report of a finished slot is followed by the question for another,
/// without a wait. The upload surface is followed by that question too, the last slot of it by the
/// copy of the pixels. A frame that is to be queued is, or a slot is asked for. With more than one
/// frame in flight a picture is taken, for two seconds the first time and half a second later, and
/// its buffer is given back; with one in flight, finished slots are asked for and the call is over.
pub proof fn answer_is_followed_by_its_sequel(t: EncoderState, event: Event)
    requires
        t.wf(),
        t.accepts(event),
    ensures
        ({
            let u = t.next(event).0;
            let action = t.next(event).1;
            let taken = forall|i: int| 0 <= i < 4 ==> (#[trigger] u.slots[i]) is Some;
            let asks_for_slots = action == (Action::<VideoView>::Reclaim { timeout_ms: 0 });
            let queues = if taken {
                asks_for_slots && u.phase == Phase::Reclaim(ReclaimFor::Slot { retry: false })
            } else {
                action is Queue
            };
            let takes = if u.in_flight > 1 {
                action == (Action::<VideoView>::Dequeue {
                    timeout_ms: if t.first {
                        2000i32
                    } else {
                        500i32
                    },
                })
            } else {
                asks_for_slots && u.phase == Phase::Reclaim(ReclaimFor::Finish)
            };
            match event {
                Event::Alloc(handle) => handle != 0 ==> if t.upload is None {
                    asks_for_slots && u.phase == Phase::Reclaim(ReclaimFor::Upload)
                } else {
                    action is Convert
                },
                Event::Reclaim(index) => if 0 <= index < 4 {
                    asks_for_slots && u.phase == t.phase
                } else if t.phase == Phase::Reclaim(ReclaimFor::Upload) {
                    action is Upload
                } else if t.phase == Phase::Reclaim(ReclaimFor::Slot { retry: false }) {
                    if taken {
                        action == (Action::<VideoView>::Reclaim { timeout_ms: 500 }) && u.phase
                            == Phase::Reclaim(ReclaimFor::Slot { retry: true })
                    } else {
                        action is Queue
                    }
                } else if t.phase == Phase::Reclaim(ReclaimFor::Slot { retry: true }) {
                    !taken ==> action is Queue
                } else {
                    action is Done
                },
                Event::Upload(status) => status == 0 ==> action is Convert || action is Alloc,
                Event::Convert(status) => status == 0 ==> queues,
                Event::Adopt(surface) => !fails(t, event) ==> queues,
                Event::Queue { status, os_error } => status == 0 ==> if t.copies > 1 {
                    queues
                } else {
                    takes
                },
                Event::Dequeue { index, data, key, pts_us, os_error } => {
                    &&& index >= 0 ==> action == (Action::<VideoView>::Release { index })
                    &&& index == -1 ==> asks_for_slots && u.phase == Phase::Reclaim(
                        ReclaimFor::Finish,
                    )
                },
                Event::Release => takes,
            }
        }),
{
    let u = t.next(event).0;
    let p = |x: Option<JetsonSurface>| x is None;
    next_keeps_wf(t, event);
    first_where_is_first(u.slots, p);
    free_slot_in_range();
    if u.free_slot() is None {
        assert forall|i: int| 0 <= i < 4 implies (#[trigger] u.slots[i]) is Some by {
            assert(!p(u.slots[i]));
        }
    } else {
        assert(p(u.slots[u.free_slot()->0]));
    }
}

/// How often a frame was queued in `events`.
pub open spec fn times_queued(events: Seq<Event>) -> int
    decreases events.len(),
{
    if events.len() == 0 {
        0
    } else {
        times_queued(events.drop_last()) + match events.last() {
            Event::Queue { status, os_error } => if status == 0 {
                1int
            } else {
                0
            },
            _ => 0,
        }
    }
}

proof fn copies_are_counted_down(
    s: EncoderState,
    input: EncodeInput,
    ms: i64,
    events: Seq<Event>,
    end: Next,
)
    requires
        dialogue(s, input, ms, events, end),
    ensures
        match end.0.phase {
            Phase::Idle => end.1->Done_0 is Ok ==> times_queued(events) == copies_of(s),
            Phase::AllocUpload
            | Phase::Reclaim(ReclaimFor::Upload)
            | Phase::Upload
            | Phase::AllocNv12
            | Phase::Convert(_)
            | Phase::Adopt => times_queued(events) == 0,
            Phase::Reclaim(ReclaimFor::Slot { .. }) | Phase::Queue(_) => times_queued(events)
                + end.0.copies == copies_of(s),
            Phase::Dequeue | Phase::Release | Phase::Reclaim(ReclaimFor::Finish) => times_queued(
                events,
            ) == copies_of(s),
        },
    decreases events.len(),
{
    dialogue_is_linked(s, input, ms, events, end);
    if events.len() > 0 {
        let mid = dialogue_had_a_step_before(s, input, ms, events, end);
        copies_are_counted_down(s, input, ms, events.drop_last(), mid);
    }
}

/// A frame is queued twice until a call has returned something, so that one is in flight from the
/// start, and once from then on. Pictures are taken only after that.
pub proof fn first_frame_is_queued_twice_and_others_once(
    s: EncoderState,
    input: EncodeInput,
    ms: i64,
    events: Seq<Event>,
    end: Next,
)
    requires
        dialogue(s, input, ms, events, end),
        end.1 is Dequeue || end.1 is Release || end.1 is Done && end.1->Done_0 is Ok,
    ensures
        times_queued(events) == (if s.first {
            2int
        } else {
            1
        }),
{
    dialogue_is_linked(s, input, ms, events, end);
    copies_are_counted_down(s, input, ms, events, end);
}

/// The answer that is accepted is the one to the action that was given, of the same name.
pub proof fn only_the_answer_asked_for_is_accepted(
    s: EncoderState,
    input: EncodeInput,
    ms: i64,
    events: Seq<Event>,
    end: Next,
    event: Event,
)
    requires
        dialogue(s, input, ms, events, end),
    ensures
        end.0.accepts(event) <==> {
            ||| end.1 is Alloc && event is Alloc
            ||| end.1 is Reclaim && event is Reclaim
            ||| end.1 is Upload && event is Upload
            ||| end.1 is Convert && event is Convert
            ||| end.1 is Adopt && event is Adopt
            ||| end.1 is Queue && event is Queue
            ||| end.1 is Dequeue && event is Dequeue
            ||| end.1 is Release && event is Release
        },
{
    dialogue_is_linked(s, input, ms, events, end);
}

/// A surface is allocated only where it is needed, and of the encoder's size: the RGB surface for
/// uploads where there is none yet, an NV12 surface where every one of the pool is needed.
pub proof fn surface_is_allocated_only_where_needed(
    s: EncoderState,
    input: EncodeInput,
    ms: i64,
    events: Seq<Event>,
    end: Next,
    request: AllocRequest,
)
    requires
        dialogue(s, input, ms, events, end),
        end.1 == Action::<VideoView>::Alloc(request),
    ensures
        input is YUV,
        request.width == s.config.width,
        request.height == s.config.height,
        end.0.upload is None ==> request.format == 1,
        end.0.upload is Some ==> request.format == 0 && forall|i: int|
            0 <= i < end.0.cpu_pool.len() ==> needed(end.0, (#[trigger] end.0.cpu_pool[i]).handle),
{
    dialogue_is_linked(s, input, ms, events, end);
    pixels_come_from_the_input(s, input, ms, events, end);
    if events.len() > 0 {
        let mid = dialogue_had_a_step_before(s, input, ms, events, end).0;
        let p = |x: JetsonSurface| !mid.busy(x.handle);
        first_where_is_first(mid.cpu_pool, p);
        assert forall|i: int| 0 <= i < end.0.cpu_pool.len() && end.0.upload is Some implies needed(
            end.0,
            (#[trigger] end.0.cpu_pool[i]).handle,
        ) by {
            let handle = mid.cpu_pool[i].handle;
            assert(!p(mid.cpu_pool[i]));
            busy_depends_on_slots_and_last(mid, end.0, handle);
            busy_is_needed(end.0, handle);
        }
    }
}

/// An opened encoder has nothing yet: four empty slots, no surface, no frame, none in flight; and
/// its set-up and bitrate are those it was opened with.
pub proof fn fresh_encoder_is_bare(config: JetsonEncoderConfig, bitrate: u32)
    ensures
        ({
            let s = EncoderState::fresh(config, bitrate);
            &&& s.config == config
            &&& s.bitrate == bitrate
            &&& s.slots == seq![None::<JetsonSurface>, None, None, None]
            &&& s.upload is None
            &&& s.cpu_pool.len() == 0
            &&& s.last is None
            &&& s.in_flight == 0
            &&& s.first
            &&& s.phase is Idle
        }),
{
}

/// A call can be served whenever none is being served, unless a number would run over: the time in
/// microseconds, the count of frames in flight, or for a CPU frame its number of bytes.
pub proof fn idle_encoder_is_ready(s: EncoderState, input: EncodeInput, ms: i64)
    ensures
        s.ready(input, ms) <==> {
            &&& s.phase is Idle
            &&& s.in_flight <= usize::MAX - 2
            &&& ms * 1000 <= i64::MAX
            &&& input is YUV ==> s.config.width * s.config.height * 4 <= usize::MAX
            &&& input is YUV ==> s.config.width * 4 <= usize::MAX
        },
{
}

/// An action shows what it holds.
pub proof fn action_shows_what_it_holds(action: Action<VideoFrame>)
    ensures
        action matches Action::Alloc(request) ==> action@ == Action::<VideoView>::Alloc(request),
        action matches Action::Reclaim { timeout_ms } ==> action@ == (Action::<
            VideoView,
        >::Reclaim { timeout_ms }),
        action matches Action::Upload { dst, stride, width, height } ==> action@ == (Action::<
            VideoView,
        >::Upload { dst, stride, width, height }),
        action matches Action::Convert(request) ==> action@ == Action::<VideoView>::Convert(
            request,
        ),
        action matches Action::Adopt { ptr } ==> action@ == (Action::<VideoView>::Adopt { ptr }),
        action matches Action::Queue { index, surface, pts_us } ==> action@ == (Action::<
            VideoView,
        >::Queue { index, surface, pts_us }),
        action matches Action::Dequeue { timeout_ms } ==> action@ == (Action::<
            VideoView,
        >::Dequeue { timeout_ms }),
        action matches Action::Release { index } ==> action@ == (Action::<VideoView>::Release {
            index,
        }),
        action matches Action::Done(Ok(video)) ==> action@ == Action::Done(
            Ok::<VideoView, JetsonError>(video@),
        ),
        action matches Action::Done(Err(error)) ==> action@ == Action::Done(
            Err::<VideoView, JetsonError>(error),
        ),
{
}

} // verus!
