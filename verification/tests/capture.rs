use jetson::capture::{resume, set_wanted, suspend, wanted, JetsonCapture};
use jetson::capture_model::{
    CaptureAction, CaptureEvent, CaptureGate, DmabufDesc, MAX_FBS, MAX_POOL,
};
use jetson::error::JetsonError;
use jetson::surface::JetsonSurface;

fn desc(fb_id: u32) -> DmabufDesc {
    DmabufDesc {
        fb_id,
        has_fd: true,
        width: 8,
        height: 6,
        format: u32::from_le_bytes(*b"XR24"),
        modifier: 0,
        num_planes: 1,
        pitches: [32, 0, 0, 0],
        offsets: [16, 0, 0, 0],
        hdr_eotf: 0,
    }
}

/// A capture that knows the framebuffers 1 to `n`, with the descriptors 101 to 100 + n.
fn knowing(n: u32) -> JetsonCapture {
    let mut c = JetsonCapture::default();
    for id in 1..=n {
        c.note(&desc(id), 3, Some(100 + id as i32));
    }
    c
}

fn dup_ok() -> CaptureEvent {
    CaptureEvent::Dup { ok: true, os_error: String::new() }
}

fn done(action: CaptureAction) -> Result<Option<JetsonSurface>, JetsonError> {
    match action {
        CaptureAction::Done(r) => r,
        other => panic!("not done: {other:?}"),
    }
}

/// Converts a frame with every outcome good. `refs` are the references to the pool's surfaces;
/// new surfaces are made at `handle` and `handle + 1`.
fn convert(
    c: &mut JetsonCapture,
    d: &DmabufDesc,
    refs: &[usize],
    handle: usize,
) -> Option<JetsonSurface> {
    let mut action = c.convert(d, 0, true);
    loop {
        let event = match action {
            CaptureAction::Dup { .. } => dup_ok(),
            CaptureAction::Import(_) => CaptureEvent::Import(handle),
            CaptureAction::Count => CaptureEvent::Count(refs.to_vec()),
            CaptureAction::Alloc(_) => CaptureEvent::Alloc(handle + 1),
            CaptureAction::Convert(_) => CaptureEvent::Convert(0),
            CaptureAction::Done(r) => return r.unwrap(),
        };
        assert!(c.accepts(&event));
        action = c.resume(event);
    }
}

#[test]
fn suspension_hides_what_is_wanted() {
    let mut gate = CaptureGate { wanted: false, suspended: false };
    assert!(!wanted(&gate));
    set_wanted(&mut gate, true);
    assert!(wanted(&gate));
    suspend(&mut gate);
    assert!(!wanted(&gate));
    set_wanted(&mut gate, true);
    assert!(!wanted(&gate));
    resume(&mut gate);
    assert!(wanted(&gate));
    suspend(&mut gate);
    set_wanted(&mut gate, false);
    resume(&mut gate);
    assert!(!wanted(&gate));
}

#[test]
fn only_real_descriptors_are_noted() {
    let mut c = JetsonCapture::default();
    let bare = DmabufDesc { has_fd: false, ..desc(1) };
    for (d, fd) in [(bare, 3), (desc(1), -1), (desc(0), 3)] {
        assert!(!JetsonCapture::carries_fd(&d, fd));
        c.note(&d, fd, Some(9));
        assert!(!c.keeps(d.fb_id));
    }
    assert!(JetsonCapture::carries_fd(&desc(1), 0));
    c.note(&desc(1), 3, None);
    assert!(!c.keeps(1));
    c.note(&desc(1), 3, Some(9));
    assert!(c.keeps(1));
}

#[test]
fn oldest_framebuffer_is_forgotten_first() {
    let mut c = knowing(MAX_FBS as u32);
    for id in 1..=8 {
        assert!(c.keeps(id));
    }
    c.note(&desc(9), 3, Some(109));
    assert!(!c.keeps(1));
    for id in 2..=9 {
        assert!(c.keeps(id));
    }
    c.note(&desc(10), 3, Some(110));
    assert!(!c.keeps(2));
    assert!(c.keeps(3));
}

#[test]
fn known_framebuffer_keeps_its_place() {
    let mut c = knowing(8);
    c.note(&desc(1), 3, Some(201));
    for id in 1..=8 {
        assert!(c.keeps(id));
    }
    assert_eq!(c.gl_fd(&desc(1), -1), 201);
    c.note(&desc(9), 3, Some(109));
    assert!(!c.keeps(1));
}

#[test]
fn other_path_gets_a_kept_descriptor_once() {
    let mut c = knowing(2);
    assert_eq!(c.gl_fd(&desc(1), -1), 101);
    assert_eq!(c.gl_fd(&desc(1), -1), -1);
    assert_eq!(c.gl_fd(&desc(1), -7), -7);
    assert_eq!(c.gl_fd(&desc(2), -1), 102);
    c.note(&desc(1), 3, Some(301));
    assert_eq!(c.gl_fd(&desc(1), -1), 301);
    assert_eq!(c.gl_fd(&desc(1), -1), -1);
}

#[test]
fn received_descriptor_is_handed_on() {
    let mut c = knowing(1);
    assert_eq!(c.gl_fd(&desc(1), 55), 55);
    // The other path has it now.
    assert_eq!(c.gl_fd(&desc(1), -1), -1);
    // An unknown framebuffer has nothing to hand out, and is not taken for seen.
    assert_eq!(c.gl_fd(&desc(5), -1), -1);
    c.note(&desc(5), 3, Some(105));
    assert_eq!(c.gl_fd(&desc(5), -1), 105);
}

#[test]
fn frames_that_are_not_plain_take_the_other_path() {
    let hdr = DmabufDesc { hdr_eotf: 2, ..desc(1) };
    let planes = DmabufDesc { num_planes: 2, ..desc(1) };
    for (d, transform, wanted) in [
        (desc(1), 1, true),
        (hdr, 0, true),
        (planes, 0, true),
        (desc(1), 0, false),
        (desc(2), 0, true),
    ] {
        let mut c = knowing(1);
        assert!(done(c.convert(&d, transform, wanted)).unwrap().is_none());
        // It is no failure: a plain frame still goes through.
        assert!(convert(&mut c, &desc(1), &[], 50).is_some());
    }
    let none = DmabufDesc { num_planes: 0, ..desc(1) };
    assert!(convert(&mut knowing(1), &none, &[], 50).is_some());
}

#[test]
fn first_frame_is_imported_allocated_and_converted() {
    let mut c = knowing(1);
    assert!(c.is_idle());
    assert!(matches!(c.convert(&desc(1), 0, true), CaptureAction::Dup { fd: 101 }));
    assert!(!c.is_idle());
    match c.resume(dup_ok()) {
        CaptureAction::Import(r) => {
            assert_eq!((r.width, r.height, r.pitch, r.offset), (8, 6, 32, 16));
            assert_eq!((r.format, r.block_height_log2), (2, -1));
        }
        other => panic!("{other:?}"),
    }
    assert!(matches!(c.resume(CaptureEvent::Import(50)), CaptureAction::Count));
    assert!(c.pool().is_empty());
    match c.resume(CaptureEvent::Count(vec![])) {
        CaptureAction::Alloc(r) => assert_eq!((r.width, r.height, r.format), (8, 6, 0)),
        other => panic!("{other:?}"),
    }
    match c.resume(CaptureEvent::Alloc(60)) {
        CaptureAction::Convert(r) => assert_eq!((r.src, r.dst), (50, 60)),
        other => panic!("{other:?}"),
    }
    let frame = done(c.resume(CaptureEvent::Convert(0))).unwrap().unwrap();
    assert_eq!(frame, JetsonSurface { handle: 60, width: 8, height: 6, nv12: true });
    assert!(c.holds(50));
    assert!(c.holds(60));
    assert!(!c.holds(70));
    // The next frame needs no import.
    assert!(matches!(c.convert(&desc(1), 0, true), CaptureAction::Count));
}

#[test]
fn new_descriptor_is_imported_anew() {
    let mut c = knowing(1);
    convert(&mut c, &desc(1), &[], 50).unwrap();
    c.note(&desc(1), 3, Some(201));
    assert!(!c.holds(50));
    assert!(c.holds(51));
    assert!(matches!(c.convert(&desc(1), 0, true), CaptureAction::Dup { fd: 201 }));
}

#[test]
fn first_free_surface_is_used() {
    let mut c = knowing(1);
    convert(&mut c, &desc(1), &[], 50).unwrap();
    convert(&mut c, &desc(1), &[2], 60).unwrap();
    convert(&mut c, &desc(1), &[3, 2], 70).unwrap();
    let handles: Vec<usize> = c.pool().iter().map(|s| s.handle).collect();
    assert_eq!(handles, vec![51, 61, 71]);
    assert_eq!(convert(&mut c, &desc(1), &[2, 1, 1], 80).unwrap().handle, 61);
    assert_eq!(convert(&mut c, &desc(1), &[1, 1, 1], 80).unwrap().handle, 51);
    assert_eq!(c.pool().len(), 3);
}

#[test]
fn frame_is_dropped_when_every_surface_is_in_use() {
    let mut c = knowing(1);
    for n in 0..MAX_POOL {
        assert!(convert(&mut c, &desc(1), &vec![2; n], 50 + 10 * n).is_some());
    }
    assert_eq!(c.pool().len(), 5);
    assert!(convert(&mut c, &desc(1), &[2, 2, 2, 2, 2], 500).is_none());
    assert_eq!(c.pool().len(), 5);
    // Dropped, not failed.
    assert_eq!(convert(&mut c, &desc(1), &[2, 2, 2, 2, 1], 500).unwrap().handle, 91);
}

#[test]
fn pool_holds_no_surface_twice() {
    let mut c = knowing(2);
    for n in 0..20 {
        let count = |i: usize| if i == n % 7 { 1 } else { 2 };
        let refs: Vec<usize> = (0..c.pool().len()).map(count).collect();
        convert(&mut c, &desc(1 + n as u32 % 2), &refs, 50 + 10 * n);
    }
    let distinct: std::collections::HashSet<usize> = c.pool().iter().map(|s| s.handle).collect();
    assert_eq!(distinct.len(), c.pool().len());
    assert_eq!(c.pool().len(), 5);
}

#[test]
fn surfaces_of_another_size_are_let_go() {
    let mut c = knowing(2);
    convert(&mut c, &desc(1), &[], 50).unwrap();
    assert!(c.holds(51));
    let wide = DmabufDesc { width: 16, ..desc(2) };
    let frame = convert(&mut c, &wide, &[], 60).unwrap();
    assert_eq!((frame.handle, frame.width), (61, 16));
    assert!(!c.holds(51));
    assert_eq!(c.pool().len(), 1);
}

#[test]
fn framebuffer_that_changes_its_size_fails() {
    let mut c = knowing(1);
    convert(&mut c, &desc(1), &[], 50).unwrap();
    let wide = DmabufDesc { width: 16, ..desc(1) };
    assert!(matches!(c.convert(&wide, 0, true), CaptureAction::Count));
    assert!(matches!(c.resume(CaptureEvent::Count(vec![])), CaptureAction::Alloc(_)));
    let e = done(c.resume(CaptureEvent::Alloc(70))).unwrap_err();
    assert!(matches!(e, JetsonError::SizeMismatch));
}

/// After a failure every frame takes the other path.
fn assert_failed(c: &mut JetsonCapture) {
    assert!(c.is_idle());
    assert!(done(c.convert(&desc(1), 0, true)).unwrap().is_none());
    c.note(&desc(1), 3, Some(77));
    assert!(done(c.convert(&desc(1), 0, true)).unwrap().is_none());
    // What is known for the other path stays.
    assert_eq!(c.gl_fd(&desc(1), -1), 77);
}

#[test]
fn failed_duplication_is_final() {
    let mut c = knowing(1);
    c.convert(&desc(1), 0, true);
    let refused = CaptureEvent::Dup { ok: false, os_error: "EMFILE".to_owned() };
    let e = done(c.resume(refused)).unwrap_err();
    assert_eq!(e.message(), "EMFILE");
    assert_failed(&mut c);
}

#[test]
fn failed_import_is_final() {
    let mut c = knowing(1);
    let odd = DmabufDesc { modifier: 7, ..desc(1) };
    c.convert(&odd, 0, true);
    let e = done(c.resume(dup_ok())).unwrap_err();
    assert!(matches!(e, JetsonError::UnsupportedModifier { modifier: 7 }));
    assert_failed(&mut c);
    let mut c = knowing(1);
    c.convert(&desc(1), 0, true);
    c.resume(dup_ok());
    let e = done(c.resume(CaptureEvent::Import(0))).unwrap_err();
    assert!(matches!(e, JetsonError::ImportFailed { width: 8, height: 6, modifier: 0 }));
    assert_failed(&mut c);
}

#[test]
fn failed_allocation_or_conversion_is_final() {
    let mut c = knowing(1);
    c.convert(&desc(1), 0, true);
    c.resume(dup_ok());
    c.resume(CaptureEvent::Import(50));
    c.resume(CaptureEvent::Count(vec![]));
    let e = done(c.resume(CaptureEvent::Alloc(0))).unwrap_err();
    assert!(matches!(e, JetsonError::AllocFailed { width: 8, height: 6 }));
    assert_failed(&mut c);
    let mut c = knowing(1);
    c.convert(&desc(1), 0, true);
    c.resume(dup_ok());
    c.resume(CaptureEvent::Import(50));
    c.resume(CaptureEvent::Count(vec![]));
    c.resume(CaptureEvent::Alloc(60));
    let e = done(c.resume(CaptureEvent::Convert(-1))).unwrap_err();
    assert!(matches!(e, JetsonError::TransformFailed));
    assert_failed(&mut c);
}

#[test]
fn outcomes_of_something_else_are_not_accepted() {
    let mut c = knowing(1);
    assert!(!c.accepts(&dup_ok()));
    c.convert(&desc(1), 0, true);
    assert!(!c.accepts(&CaptureEvent::Import(1)));
    assert!(c.accepts(&dup_ok()));
    c.resume(dup_ok());
    c.resume(CaptureEvent::Import(50));
    assert!(!c.accepts(&CaptureEvent::Count(vec![1])));
    assert!(c.accepts(&CaptureEvent::Count(vec![])));
}
