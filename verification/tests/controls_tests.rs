use typed_gpu::controls::{
    camera_step, CameraFlags, CameraStep, ElementState, FramePlan, Key, Latch, Simulation,
};

#[test]
fn keys_move_the_camera_along_its_axes() {
    let down = ElementState::Pressed;
    assert_eq!(camera_step(Some(Key::W), down), CameraStep::Move { axis: 1, forward: true });
    assert_eq!(camera_step(Some(Key::S), down), CameraStep::Move { axis: 1, forward: false });
    assert_eq!(camera_step(Some(Key::D), down), CameraStep::Move { axis: 0, forward: true });
    assert_eq!(camera_step(Some(Key::A), down), CameraStep::Move { axis: 0, forward: false });
    assert_eq!(camera_step(Some(Key::Q), down), CameraStep::Move { axis: 2, forward: true });
    assert_eq!(camera_step(Some(Key::E), down), CameraStep::Move { axis: 2, forward: false });
    assert_eq!(camera_step(Some(Key::Space), down), CameraStep::Toggle);
    assert_eq!(camera_step(Some(Key::J), down), CameraStep::Nothing);
    assert_eq!(camera_step(Some(Key::Other), down), CameraStep::Nothing);
    assert_eq!(camera_step(None, down), CameraStep::Nothing);
}

#[test]
fn keys_that_come_up_do_nothing_to_the_camera() {
    for key in [Key::W, Key::A, Key::S, Key::D, Key::Q, Key::E, Key::J, Key::Space, Key::Other] {
        assert_eq!(camera_step(Some(key), ElementState::Released), CameraStep::Nothing);
    }
    assert_eq!(camera_step(None, ElementState::Released), CameraStep::Nothing);
}

#[test]
fn camera_is_uploaded_once_after_it_changed() {
    let mut flags = CameraFlags::new();
    assert!(!flags.take_upload());
    flags.apply(CameraStep::Nothing);
    assert!(!flags.take_upload());
    flags.apply(CameraStep::Move { axis: 0, forward: true });
    assert!(!flags.activated);
    assert!(flags.take_upload());
    assert!(!flags.take_upload());
    flags.apply(CameraStep::Toggle);
    assert!(flags.activated);
    assert!(flags.modified);
    flags.apply(CameraStep::Toggle);
    assert!(!flags.activated);
    assert!(flags.take_upload());
    assert!(!flags.modified);
}

#[test]
fn pointer_turns_the_camera_while_shift_is_held() {
    let mut flags = CameraFlags::new();
    assert!(!flags.pointer_moved(false, true, true));
    assert!(!flags.modified);
    assert!(flags.pointer_moved(true, true, false));
    assert!(!flags.modified);
    assert!(flags.pointer_moved(true, false, true));
    assert!(!flags.modified);
    assert!(flags.pointer_moved(true, true, true));
    assert!(flags.modified);
    assert!(!flags.pointer_moved(false, false, false));
    assert!(flags.modified);
}

#[test]
fn simulation_alternates_its_bind_groups() {
    let mut s = Simulation::new();
    for n in 0..600usize {
        assert_eq!(s.next_frame(), FramePlan { reseed: false, group: n % 2 });
    }
}

#[test]
fn simulation_is_reset_once_when_space_goes_down() {
    let mut s = Simulation::new();
    s.key(Some(Key::Space), ElementState::Released);
    s.key(Some(Key::J), ElementState::Pressed);
    s.key(None, ElementState::Pressed);
    assert_eq!(s.next_frame(), FramePlan { reseed: false, group: 0 });
    s.key(Some(Key::Space), ElementState::Pressed);
    s.key(Some(Key::J), ElementState::Pressed);
    assert_eq!(s.next_frame(), FramePlan { reseed: true, group: 1 });
    assert_eq!(s.next_frame(), FramePlan { reseed: false, group: 0 });
}

#[test]
fn latch_is_raised_by_space_and_taken_once() {
    let mut l = Latch::new();
    assert!(!l.take());
    l.key(Some(Key::W));
    l.key(None);
    assert!(!l.take());
    l.key(Some(Key::Space));
    l.key(Some(Key::W));
    assert!(l.take());
    assert!(!l.take());
}
