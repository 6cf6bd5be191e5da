//! The zero-copy capture as a state machine: which scanout buffers it knows, which of them
//! are imported, and how a frame is converted.

use crate::error::JetsonError;
use crate::format::JZ_FMT_NV12;
use crate::search::first_where;
use crate::surface::{import_plan, AllocRequest, ConvertRequest, ImportRequest, JetsonSurface};
use vstd::prelude::*;

verus! {

/// How many scanout buffers are remembered: those that a compositor cycles through.
pub const MAX_FBS: usize = 8;

/// How many NV12 surfaces there are: the latest frame, those that the encoder has in flight
/// and for repeats, and the one being converted.
pub const MAX_POOL: usize = 5;

/// A scanout buffer, as its producer describes it with each frame.
#[derive(Clone, Copy, Debug)]
pub struct DmabufDesc {
    /// The framebuffer; zero if it has none.
    pub fb_id: u32,
    /// The frame carries a file descriptor: the first of this framebuffer, or a new buffer.
    pub has_fd: bool,
    pub width: u32,
    pub height: u32,
    /// The DRM pixel format.
    pub format: u32,
    /// The DRM memory layout.
    pub modifier: u64,
    pub num_planes: u32,
    pub pitches: [u32; 4],
    pub offsets: [u32; 4],
    /// The transfer function of a high dynamic range picture; zero for any other.
    pub hdr_eotf: u32,
}

/// Whether GPU frames are to be delivered.
#[derive(Clone, Copy, Debug)]
pub struct CaptureGate {
    /// The encoder takes them.
    pub wanted: bool,
    /// A screenshot needs CPU pixels for now.
    pub suspended: bool,
}

impl CaptureGate {
    /// GPU frames are delivered: the encoder takes them, and no screenshot is being made.
    pub open spec fn open(self) -> bool {
        self.wanted && !self.suspended
    }
}

/// The answer that a conversion waits for.
#[derive(Clone, Copy, Debug)]
pub enum ConvertPhase {
    /// None: no frame is being converted.
    Idle,
    Dup(DmabufDesc),
    Import(DmabufDesc, ImportRequest),
    Count(DmabufDesc),
    Alloc(DmabufDesc),
    Convert(JetsonSurface),
}

/// What the caller has to do next. All but the last ask for something whose outcome is handed
/// back as the `CaptureEvent` of the same name.
#[derive(Debug)]
pub enum CaptureAction {
    /// Duplicate the file descriptor, for the import to read.
    Dup { fd: i32 },
    /// Import the duplicate.
    Import(ImportRequest),
    /// Count the references to each surface of the pool.
    Count,
    /// Allocate a surface.
    Alloc(AllocRequest),
    /// Convert one surface into another.
    Convert(ConvertRequest),
    /// Nothing: the frame is there, or is to take the other path. A failure means that all
    /// further frames take the other path too.
    Done(Result<Option<JetsonSurface>, JetsonError>),
}

/// The outcome of an action.
#[derive(Debug)]
pub enum CaptureEvent {
    /// Whether the descriptor was duplicated, with the system's words if not.
    Dup { ok: bool, os_error: String },
    /// The handle of the imported surface, or null.
    Import(usize),
    /// The number of references to each surface of the pool, one of which is the pool's own.
    Count(Vec<usize>),
    /// The handle of the new surface, or null.
    Alloc(usize),
    /// Zero, or a failure.
    Convert(i32),
}

/// What a capture remembers.
#[verifier::ext_equal]
pub struct CaptureState {
    /// The file descriptor of each known framebuffer.
    pub fds: Map<u32, i32>,
    /// The known framebuffers, the one known longest first.
    pub order: Seq<u32>,
    /// The framebuffers that are imported.
    pub imports: Map<u32, JetsonSurface>,
    /// The framebuffers whose descriptor the other path has been handed.
    pub gl_seen: Set<u32>,
    /// The surfaces that frames are converted to.
    pub pool: Seq<JetsonSurface>,
    /// A conversion has failed.
    pub failed: bool,
    pub phase: ConvertPhase,
}

/// What a step of a conversion leads to.
pub type CaptureNext = (CaptureState, CaptureAction);

/// The frame brings a descriptor that is worth keeping.
pub open spec fn carries_fd(desc: DmabufDesc, received_fd: i32) -> bool {
    desc.has_fd && received_fd >= 0 && desc.fb_id != 0
}

/// Rotated, high dynamic range and multi-plane frames stay on the other path.
pub open spec fn is_plain(desc: DmabufDesc, transform: i32) -> bool {
    transform == 0 && desc.hdr_eotf == 0 && desc.num_planes <= 1
}

/// The surface has the size of the scanout.
pub open spec fn same_size(desc: DmabufDesc, s: JetsonSurface) -> bool {
    s.width == desc.width && s.height == desc.height
}

impl CaptureState {
    /// A capture that has seen nothing.
    pub open spec fn empty() -> CaptureState {
        CaptureState {
            fds: Map::empty(),
            order: Seq::empty(),
            imports: Map::empty(),
            gl_seen: Set::empty(),
            pool: Seq::empty(),
            failed: false,
            phase: ConvertPhase::Idle,
        }
    }

    /// What holds of a capture at any time.
    pub open spec fn well_kept(self) -> bool {
        &&& self.order.no_duplicates()
        &&& self.order.len() <= MAX_FBS
        &&& forall|id: u32| #[trigger] self.order.contains(id) <==> self.fds.contains_key(id)
        &&& forall|id: u32| #[trigger]
            self.imports.contains_key(id) ==> self.fds.contains_key(id) && !self.imports[id].nv12
        &&& self.pool.len() <= MAX_POOL
        &&& forall|i: int| 0 <= i < self.pool.len() ==> (#[trigger] self.pool[i]).nv12
        &&& forall|i: int, j: int|
            0 <= i < self.pool.len() && 0 <= j < self.pool.len() ==> {
                &&& (#[trigger] self.pool[i]).width == (#[trigger] self.pool[j]).width
                &&& self.pool[i].height == self.pool[j].height
            }
    }

    /// The surfaces of the pool have the size of the scanout.
    pub open spec fn pool_fits(self, desc: DmabufDesc) -> bool {
        forall|i: int| 0 <= i < self.pool.len() ==> same_size(desc, #[trigger] self.pool[i])
    }

    /// What holds of a capture between any two steps.
    pub open spec fn wf(self) -> bool {
        &&& self.well_kept()
        &&& match self.phase {
            ConvertPhase::Idle => true,
            ConvertPhase::Dup(desc) => self.fds.contains_key(desc.fb_id),
            ConvertPhase::Import(desc, request) => self.fds.contains_key(desc.fb_id),
            ConvertPhase::Count(desc) => self.imports.contains_key(desc.fb_id) && self.pool_fits(
                desc,
            ),
            ConvertPhase::Alloc(desc) => {
                &&& self.imports.contains_key(desc.fb_id)
                &&& self.pool_fits(desc)
                &&& self.pool.len() < MAX_POOL
            },
            ConvertPhase::Convert(dst) => self.pool.contains(dst),
        }
    }

    /// `event` is the outcome that the conversion waits for.
    pub open spec fn accepts(self, event: CaptureEvent) -> bool {
        match self.phase {
            ConvertPhase::Idle => false,
            ConvertPhase::Dup(_) => event is Dup,
            ConvertPhase::Import(_, _) => event is Import,
            ConvertPhase::Count(_) => event is Count && event->Count_0@.len() == self.pool.len(),
            ConvertPhase::Alloc(_) => event is Alloc,
            ConvertPhase::Convert(_) => event is Convert,
        }
    }

    /// The surface at `handle` is referred to by the capture and must not go away.
    pub open spec fn holds(self, handle: usize) -> bool {
        ||| exists|i: int| 0 <= i < self.pool.len() && (#[trigger] self.pool[i]).handle == handle
        ||| exists|id: u32| #[trigger]
            self.imports.contains_key(id) && self.imports[id].handle == handle
    }

    /// A framebuffer is forgotten by both paths.
    pub open spec fn forget_imports(self, id: u32) -> CaptureState {
        CaptureState { imports: self.imports.remove(id), gl_seen: self.gl_seen.remove(id), ..self }
    }

    /// The framebuffer known longest is forgotten altogether.
    pub open spec fn evict(self) -> CaptureState {
        let old_id = self.order[0];
        CaptureState {
            fds: self.fds.remove(old_id),
            order: self.order.drop_first(),
            ..self.forget_imports(old_id)
        }
    }

    /// A new descriptor for a framebuffer. It is a new buffer, so what was imported of the old
    /// one is forgotten. A framebuffer that was not known comes last in the order.
    pub open spec fn learn(self, id: u32, fd: i32) -> CaptureState {
        CaptureState {
            fds: self.fds.insert(id, fd),
            order: if self.fds.contains_key(id) {
                self.order
            } else {
                self.order.push(id)
            },
            ..self.forget_imports(id)
        }
    }

    /// A frame is noted; `dup` is a duplicate of its descriptor, if one could be made. Where
    /// too many framebuffers are known, the one known longest goes.
    pub open spec fn note(
        self,
        desc: DmabufDesc,
        received_fd: i32,
        dup: Option<i32>,
    ) -> CaptureState {
        if !carries_fd(desc, received_fd) || dup is None {
            self
        } else {
            let s = self.learn(desc.fb_id, dup->0);
            if s.order.len() > MAX_FBS {
                s.evict()
            } else {
                s
            }
        }
    }

    /// The descriptor that the other path is handed. It imports each framebuffer once, so it
    /// needs the kept one where the frame brought none and it has had none.
    pub open spec fn gl_fd(self, desc: DmabufDesc, received_fd: i32) -> (CaptureState, i32) {
        let seen = CaptureState { gl_seen: self.gl_seen.insert(desc.fb_id), ..self };
        if received_fd >= 0 || self.gl_seen.contains(desc.fb_id) {
            (seen, received_fd)
        } else if self.fds.contains_key(desc.fb_id) {
            (seen, self.fds[desc.fb_id])
        } else {
            (self, received_fd)
        }
    }

    /// Ends the conversion.
    pub open spec fn done(self, frame: Option<JetsonSurface>) -> CaptureNext {
        (CaptureState { phase: ConvertPhase::Idle, ..self }, CaptureAction::Done(Ok(frame)))
    }

    /// Ends this and all further conversions.
    pub open spec fn fail(self, error: JetsonError) -> CaptureNext {
        (
            CaptureState { failed: true, phase: ConvertPhase::Idle, ..self },
            CaptureAction::Done(Err(error)),
        )
    }

    pub open spec fn wait(self, phase: ConvertPhase, action: CaptureAction) -> CaptureNext {
        (CaptureState { phase, ..self }, action)
    }

    /// A conversion begins.
    pub open spec fn begin(self, desc: DmabufDesc, transform: i32, wanted: bool) -> CaptureNext {
        if self.failed || !wanted || !is_plain(desc, transform) {
            self.done(None)
        } else if self.imports.contains_key(desc.fb_id) {
            self.look_for_surface(desc)
        } else if self.fds.contains_key(desc.fb_id) {
            self.wait(
                ConvertPhase::Dup(desc),
                CaptureAction::Dup { fd: self.fds[desc.fb_id] },
            )
        } else {
            // The other path got its descriptor; wait for a new one.
            self.done(None)
        }
    }

    /// The scanout is imported. Surfaces of another size are of no more use.
    pub open spec fn look_for_surface(self, desc: DmabufDesc) -> CaptureNext {
        CaptureState {
            pool: self.pool.filter(|s: JetsonSurface| same_size(desc, s)),
            ..self
        }.wait(ConvertPhase::Count(desc), CaptureAction::Count)
    }

    /// The scanout is to be converted into `dst`.
    pub open spec fn convert_to(self, id: u32, dst: JetsonSurface) -> CaptureNext {
        let src = self.imports[id];
        if src.width == dst.width && src.height == dst.height {
            self.wait(
                ConvertPhase::Convert(dst),
                CaptureAction::Convert(ConvertRequest { src: src.handle, dst: dst.handle }),
            )
        } else {
            self.fail(JetsonError::SizeMismatch)
        }
    }

    /// The request for another surface of the size of the scanout.
    pub open spec fn pool_request(desc: DmabufDesc) -> AllocRequest {
        AllocRequest {
            width: desc.width as usize,
            height: desc.height as usize,
            format: JZ_FMT_NV12,
        }
    }

    /// The import that a scanout asks for.
    pub open spec fn import_request(desc: DmabufDesc) -> Result<ImportRequest, JetsonError> {
        import_plan(
            desc.width as usize,
            desc.height as usize,
            desc.format,
            desc.modifier,
            desc.pitches[0],
            desc.offsets[0],
        )
    }

    /// An outcome moves the conversion on.
    pub open spec fn next(self, event: CaptureEvent) -> CaptureNext {
        match (self.phase, event) {
            (ConvertPhase::Dup(desc), CaptureEvent::Dup { ok, os_error }) => if !ok {
                self.fail(JetsonError::DupFailed { os_error })
            } else {
                match Self::import_request(desc) {
                    Err(e) => self.fail(e),
                    Ok(request) => self.wait(
                        ConvertPhase::Import(desc, request),
                        CaptureAction::Import(request),
                    ),
                }
            },
            (ConvertPhase::Import(desc, request), CaptureEvent::Import(handle)) => {
                match request.outcome(handle) {
                    Err(e) => self.fail(e),
                    Ok(s) => CaptureState {
                        imports: self.imports.insert(desc.fb_id, s),
                        ..self
                    }.look_for_surface(desc),
                }
            },
            (ConvertPhase::Count(desc), CaptureEvent::Count(refs)) => {
                match first_where(refs@, |n: usize| n == 1) {
                    Some(i) => self.convert_to(desc.fb_id, self.pool[i]),
                    None => if self.pool.len() < MAX_POOL {
                        self.wait(
                            ConvertPhase::Alloc(desc),
                            CaptureAction::Alloc(Self::pool_request(desc)),
                        )
                    } else {
                        // Every surface is still in use downstream: this frame is dropped.
                        self.done(None)
                    },
                }
            },
            (ConvertPhase::Alloc(desc), CaptureEvent::Alloc(handle)) => {
                match Self::pool_request(desc).outcome(handle) {
                    Err(e) => self.fail(e),
                    Ok(s) => CaptureState { pool: self.pool.push(s), ..self }.convert_to(
                        desc.fb_id,
                        s,
                    ),
                }
            },
            (ConvertPhase::Convert(dst), CaptureEvent::Convert(status)) => {
                match ConvertRequest::outcome(status) {
                    Err(e) => self.fail(e),
                    Ok(_) => self.done(Some(dst)),
                }
            },
            // Not the outcome of what was asked.
            _ => self.done(None),
        }
    }
}

} // verus!
