//! Zero-copy capture: the scanout dma-buf is imported as a GPU surface and converted to NV12,
//! without a copy by the CPU. Frames that cannot take this path take the other one, through
//! OpenGL.
//!
//! A frame is converted in a dialogue: `convert` begins it, the caller performs each action it
//! is given and hands the outcome to `resume`, until the action is `Done`.

use crate::capture_laws::{begin_keeps_wf, next_keeps_wf, note_keeps_wf};
use crate::capture_model::{
    carries_fd, same_size, CaptureAction, CaptureEvent, CaptureGate, CaptureState, ConvertPhase,
    DmabufDesc, MAX_FBS, MAX_POOL,
};
use crate::error::JetsonError;
use crate::search::{first_is_first_where, first_where, is_first, none_is_first_where};
use crate::surface::{ConvertRequest, JetsonSurface};
use std::collections::{HashMap, VecDeque};
use vstd::prelude::*;

verus! {

broadcast use vstd::std_specs::hash::group_hash_axioms;

/// Sets whether the encoder takes GPU frames.
pub fn set_wanted(gate: &mut CaptureGate, on: bool)
    ensures
        *final(gate) == (CaptureGate { wanted: on, ..*old(gate) }),
{
    gate.wanted = on;
}

/// Whether GPU frames are to be delivered.
pub fn wanted(gate: &CaptureGate) -> (r: bool)
    ensures
        r == gate.open(),
        r == (gate.wanted && !gate.suspended),
{
    gate.wanted && !gate.suspended
}

/// A screenshot needs CPU pixels: they are delivered until `resume`.
pub fn suspend(gate: &mut CaptureGate)
    ensures
        *final(gate) == (CaptureGate { suspended: true, ..*old(gate) }),
{
    gate.suspended = true;
}

/// GPU frames may be delivered again.
pub fn resume(gate: &mut CaptureGate)
    ensures
        *final(gate) == (CaptureGate { suspended: false, ..*old(gate) }),
{
    gate.suspended = false;
}

/// The scanout buffers of a screen and the frames made of them.
pub struct JetsonCapture {
    fds: HashMap<u32, i32>,
    order: VecDeque<u32>,
    imports: HashMap<u32, JetsonSurface>,
    gl_seen: HashMap<u32, ()>,
    pool: Vec<JetsonSurface>,
    failed: bool,
    phase: ConvertPhase,
}

impl View for JetsonCapture {
    type V = CaptureState;

    closed spec fn view(&self) -> CaptureState {
        CaptureState {
            fds: self.fds@,
            order: self.order@,
            imports: self.imports@,
            gl_seen: self.gl_seen@.dom(),
            pool: self.pool@,
            failed: self.failed,
            phase: self.phase,
        }
    }
}

impl Default for JetsonCapture {
    fn default() -> (r: JetsonCapture)
        ensures
            r@ == CaptureState::empty(),
            r@.wf(),
    {
        let r = JetsonCapture {
            fds: HashMap::new(),
            order: VecDeque::new(),
            imports: HashMap::new(),
            gl_seen: HashMap::new(),
            pool: Vec::new(),
            failed: false,
            phase: ConvertPhase::Idle,
        };
        assert(r@ =~= CaptureState::empty());
        r
    }
}

impl JetsonCapture {
    /// Whether a frame brings a descriptor of which a duplicate is worth keeping.
    pub fn carries_fd(desc: &DmabufDesc, received_fd: i32) -> (r: bool)
        ensures
            r == carries_fd(*desc, received_fd),
            r == (desc.has_fd && received_fd >= 0 && desc.fb_id != 0),
    {
        desc.has_fd && received_fd >= 0 && desc.fb_id != 0
    }

    /// Whether no frame is being converted.
    pub fn is_idle(&self) -> (r: bool)
        ensures
            r == self@.phase is Idle,
    {
        match self.phase {
            ConvertPhase::Idle => true,
            _ => false,
        }
    }

    /// Notes the descriptor that a frame carried; must see every frame. `dup` is a duplicate of
    /// the descriptor, `None` where there is none to keep or it could not be duplicated.
    pub fn note(&mut self, desc: &DmabufDesc, received_fd: i32, dup: Option<i32>)
        requires
            old(self)@.wf(),
            old(self)@.phase is Idle,
        ensures
            final(self)@ == old(self)@.note(*desc, received_fd, dup),
            final(self)@.wf(),
    {
        proof {
            note_keeps_wf(self@, *desc, received_fd, dup);
        }
        if !Self::carries_fd(desc, received_fd) {
            return;
        }
        let fd: i32 = match dup {
            Some(fd) => fd,
            None => {
                return;
            },
        };
        let id: u32 = desc.fb_id;
        self.imports.remove(&id);
        self.gl_seen.remove(&id);
        if self.fds.insert(id, fd).is_none() {
            self.order.push_back(id);
        }
        let ghost learnt = old(self)@.learn(id, fd);
        assert(self@ =~= learnt);
        while self.order.len() > MAX_FBS
            invariant
                learnt.order.len() <= MAX_FBS + 1,
                self@ == learnt && self@.order.len() > MAX_FBS || self@ == (if learnt.order.len()
                    > MAX_FBS {
                    learnt.evict()
                } else {
                    learnt
                }),
            decreases self.order.len(),
        {
            if let Some(old_id) = self.order.pop_front() {
                self.fds.remove(&old_id);
                self.imports.remove(&old_id);
                self.gl_seen.remove(&old_id);
                assert(self@ =~= learnt.evict());
            }
        }
    }

    /// The descriptor to hand to the other path. It misses the framebuffers whose descriptor
    /// came while frames were converted here.
    pub fn gl_fd(&mut self, desc: &DmabufDesc, received_fd: i32) -> (r: i32)
        requires
            old(self)@.wf(),
        ensures
            (final(self)@, r) == old(self)@.gl_fd(*desc, received_fd),
            final(self)@.wf(),
    {
        let id: u32 = desc.fb_id;
        if received_fd >= 0 || self.gl_seen.contains_key(&id) {
            self.gl_seen.insert(id, ());
            assert(self@ =~= old(self)@.gl_fd(*desc, received_fd).0);
            return received_fd;
        }
        let kept: Option<i32> = match self.fds.get(&id) {
            Some(fd) => Some(*fd),
            None => None,
        };
        match kept {
            Some(fd) => {
                self.gl_seen.insert(id, ());
                assert(self@ =~= old(self)@.gl_fd(*desc, received_fd).0);
                fd
            },
            None => received_fd,
        }
    }

    /// Whether the descriptor of a framebuffer is kept.
    pub fn keeps(&self, fb_id: u32) -> (r: bool)
        ensures
            r == self@.fds.contains_key(fb_id),
    {
        self.fds.contains_key(&fb_id)
    }

    /// The surfaces that frames are converted to.
    pub fn pool(&self) -> (r: &Vec<JetsonSurface>)
        ensures
            r@ == self@.pool,
    {
        &self.pool
    }

    /// Whether the surface at `handle` is referred to by the capture and must not go away.
    pub fn holds(&self, handle: usize) -> (r: bool)
        requires
            self@.wf(),
        ensures
            r == self@.holds(handle),
    {
        let mut i: usize = 0;
        while i < self.pool.len()
            invariant
                0 <= i <= self.pool.len(),
                forall|j: int| 0 <= j < i ==> (#[trigger] self@.pool[j]).handle != handle,
            decreases self.pool.len() - i,
        {
            if self.pool[i].handle == handle {
                assert(self@.pool[i as int].handle == handle);
                return true;
            }
            i = i + 1;
        }
        let mut k: usize = 0;
        while k < self.order.len()
            invariant
                0 <= k <= self.order.len(),
                forall|j: int|
                    0 <= j < k && self@.imports.contains_key(#[trigger] self@.order[j])
                        ==> self@.imports[self@.order[j]].handle != handle,
            decreases self.order.len() - k,
        {
            let id: u32 = self.order[k];
            if let Some(s) = self.imports.get(&id) {
                if s.handle == handle {
                    assert(self@.imports.contains_key(id));
                    return true;
                }
            }
            k = k + 1;
        }
        proof {
            assert forall|id: u32| #[trigger]
                self@.imports.contains_key(id) implies self@.imports[id].handle != handle by {
                assert(self@.order.contains(id));
                let j = choose|j: int| 0 <= j < self@.order.len() && self@.order[j] == id;
                assert(self@.imports.contains_key(self@.order[j]));
            }
        }
        false
    }

    /// Whether `event` is the outcome that the conversion waits for.
    pub fn accepts(&self, event: &CaptureEvent) -> (r: bool)
        ensures
            r == self@.accepts(*event),
    {
        match (&self.phase, event) {
            (ConvertPhase::Dup(_), CaptureEvent::Dup { .. }) => true,
            (ConvertPhase::Import(_, _), CaptureEvent::Import(_)) => true,
            (ConvertPhase::Count(_), CaptureEvent::Count(refs)) => refs.len() == self.pool.len(),
            (ConvertPhase::Alloc(_), CaptureEvent::Alloc(_)) => true,
            (ConvertPhase::Convert(_), CaptureEvent::Convert(_)) => true,
            _ => false,
        }
    }

    /// Ends the conversion.
    fn done(&mut self, frame: Option<JetsonSurface>) -> (r: CaptureAction)
        ensures
            (final(self)@, r) == old(self)@.done(frame),
    {
        self.phase = ConvertPhase::Idle;
        CaptureAction::Done(Ok(frame))
    }

    /// Ends this and all further conversions.
    fn fail(&mut self, error: JetsonError) -> (r: CaptureAction)
        ensures
            (final(self)@, r) == old(self)@.fail(error),
    {
        self.failed = true;
        self.phase = ConvertPhase::Idle;
        CaptureAction::Done(Err(error))
    }

    /// Drops the surfaces of another size and asks which of the others are free.
    fn look_for_surface(&mut self, desc: DmabufDesc) -> (r: CaptureAction)
        ensures
            (final(self)@, r) == old(self)@.look_for_surface(desc),
    {
        let ghost p = |s: JetsonSurface| same_size(desc, s);
        let mut kept: Vec<JetsonSurface> = Vec::new();
        let mut i: usize = 0;
        assert(self.pool@.take(0) =~= Seq::empty());
        proof {
            reveal(Seq::filter);
        }
        while i < self.pool.len()
            invariant
                0 <= i <= self.pool.len(),
                p == (|s: JetsonSurface| same_size(desc, s)),
                kept@ == self.pool@.take(i as int).filter(p),
            decreases self.pool.len() - i,
        {
            proof {
                reveal(Seq::filter);
                assert(self.pool@.take(i + 1).drop_last() =~= self.pool@.take(i as int));
            }
            let s: JetsonSurface = self.pool[i];
            if s.width == desc.width as usize && s.height == desc.height as usize {
                kept.push(s);
            }
            i = i + 1;
        }
        assert(self.pool@.take(self.pool@.len() as int) =~= self.pool@);
        self.pool = kept;
        self.phase = ConvertPhase::Count(desc);
        CaptureAction::Count
    }

    /// Asks for the conversion of a framebuffer into `dst`.
    fn convert_to(&mut self, fb_id: u32, dst: JetsonSurface) -> (r: CaptureAction)
        requires
            old(self)@.imports.contains_key(fb_id),
        ensures
            (final(self)@, r) == old(self)@.convert_to(fb_id, dst),
    {
        let src: JetsonSurface = *self.imports.get(&fb_id).unwrap();
        match src.convert_into(&dst) {
            Ok(request) => {
                self.phase = ConvertPhase::Convert(dst);
                CaptureAction::Convert(request)
            },
            Err(e) => self.fail(e),
        }
    }

    /// Begins to convert a frame. The frame comes out as an NV12 surface, or `None` for it to
    /// take the other path.
    pub fn convert(&mut self, desc: &DmabufDesc, transform: i32, wanted: bool) -> (r: CaptureAction)
        requires
            old(self)@.wf(),
            old(self)@.phase is Idle,
        ensures
            (final(self)@, r) == old(self)@.begin(*desc, transform, wanted),
            final(self)@.wf(),
    {
        proof {
            begin_keeps_wf(self@, *desc, transform, wanted);
        }
        if self.failed || !wanted {
            return self.done(None);
        }
        if transform != 0 || desc.hdr_eotf != 0 || desc.num_planes > 1 {
            return self.done(None);
        }
        let id: u32 = desc.fb_id;
        if self.imports.contains_key(&id) {
            return self.look_for_surface(*desc);
        }
        let kept: Option<i32> = match self.fds.get(&id) {
            Some(fd) => Some(*fd),
            None => None,
        };
        match kept {
            Some(fd) => {
                self.phase = ConvertPhase::Dup(*desc);
                CaptureAction::Dup { fd }
            },
            None => self.done(None),
        }
    }

    /// The first surface of the pool to which nothing refers but the pool.
    fn free_surface(refs: &Vec<usize>) -> (r: Option<usize>)
        ensures
            match r {
                Some(i) => first_where(refs@, |n: usize| n == 1) == Some(i as int) && i
                    < refs@.len(),
                None => first_where(refs@, |n: usize| n == 1) is None,
            },
    {
        let ghost p = |n: usize| n == 1;
        let mut i: usize = 0;
        while i < refs.len()
            invariant
                0 <= i <= refs.len(),
                p == (|n: usize| n == 1),
                forall|j: int| 0 <= j < i ==> !p(#[trigger] refs@[j]),
            decreases refs.len() - i,
        {
            if refs[i] == 1 {
                proof {
                    assert(is_first(refs@, p, i as int));
                    first_is_first_where(refs@, p, i as int);
                }
                return Some(i);
            }
            i = i + 1;
        }
        proof {
            none_is_first_where(refs@, p);
        }
        None
    }

    /// Takes the outcome of the last action and says what to do next.
    pub fn resume(&mut self, event: CaptureEvent) -> (r: CaptureAction)
        requires
            old(self)@.wf(),
            old(self)@.accepts(event),
        ensures
            (final(self)@, r) == old(self)@.next(event),
            final(self)@.wf(),
    {
        proof {
            next_keeps_wf(self@, event);
        }
        match self.phase {
            ConvertPhase::Dup(desc) => {
                if let CaptureEvent::Dup { ok, os_error } = event {
                    return self.duplicated(desc, ok, os_error);
                }
            },
            ConvertPhase::Import(desc, request) => {
                if let CaptureEvent::Import(handle) = event {
                    return match request.finish(handle) {
                        Err(e) => self.fail(e),
                        Ok(s) => {
                            self.imports.insert(desc.fb_id, s);
                            self.look_for_surface(desc)
                        },
                    };
                }
            },
            ConvertPhase::Count(desc) => {
                if let CaptureEvent::Count(refs) = event {
                    return self.counted(desc, &refs);
                }
            },
            ConvertPhase::Alloc(desc) => {
                if let CaptureEvent::Alloc(handle) = event {
                    let request = JetsonSurface::alloc_nv12(
                        desc.width as usize,
                        desc.height as usize,
                    );
                    return match request.finish(handle) {
                        Err(e) => self.fail(e),
                        Ok(s) => {
                            self.pool.push(s);
                            self.convert_to(desc.fb_id, s)
                        },
                    };
                }
            },
            ConvertPhase::Convert(dst) => {
                if let CaptureEvent::Convert(status) = event {
                    return match ConvertRequest::finish(status) {
                        Err(e) => self.fail(e),
                        Ok(_) => self.done(Some(dst)),
                    };
                }
            },
            ConvertPhase::Idle => {},
        }
        self.done(None)
    }

    /// The descriptor is duplicated, or could not be.
    fn duplicated(&mut self, desc: DmabufDesc, ok: bool, os_error: String) -> (r: CaptureAction)
        requires
            old(self)@.phase == ConvertPhase::Dup(desc),
        ensures
            (final(self)@, r) == old(self)@.next(CaptureEvent::Dup { ok, os_error }),
    {
        if !ok {
            return self.fail(JetsonError::DupFailed { os_error });
        }
        match JetsonSurface::import(
            desc.width as usize,
            desc.height as usize,
            desc.format,
            desc.modifier,
            desc.pitches[0],
            desc.offsets[0],
        ) {
            Err(e) => self.fail(e),
            Ok(request) => {
                self.phase = ConvertPhase::Import(desc, request);
                CaptureAction::Import(request)
            },
        }
    }

    /// The references to the surfaces of the pool are counted.
    fn counted(&mut self, desc: DmabufDesc, refs: &Vec<usize>) -> (r: CaptureAction)
        requires
            old(self)@.wf(),
            old(self)@.phase == ConvertPhase::Count(desc),
            refs@.len() == old(self)@.pool.len(),
        ensures
            (final(self)@, r) == old(self)@.next(CaptureEvent::Count(*refs)),
    {
        match Self::free_surface(refs) {
            Some(i) => {
                let dst: JetsonSurface = self.pool[i];
                self.convert_to(desc.fb_id, dst)
            },
            None => {
                if self.pool.len() < MAX_POOL {
                    self.phase = ConvertPhase::Alloc(desc);
                    CaptureAction::Alloc(
                        JetsonSurface::alloc_nv12(desc.width as usize, desc.height as usize),
                    )
                } else {
                    self.done(None)
                }
            },
        }
    }
}

} // verus!
