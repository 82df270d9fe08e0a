//! What input does between frames, and what a frame has to upload before it draws.

use vstd::prelude::*;
use crate::frames::{read_index, FrameCounter};

verus! {

/// The keys that the programs listen to.
#[derive(Clone, Copy, Debug, PartialEq, Eq, Structural)]
pub enum Key {
    W,
    A,
    S,
    D,
    Q,
    E,
    J,
    Space,
    Other,
}

/// Whether a key went down or came up.
#[derive(Clone, Copy, Debug, PartialEq, Eq, Structural)]
pub enum ElementState {
    Pressed,
    Released,
}

/// What a key does to the camera.
#[derive(Clone, Copy, Debug, PartialEq, Eq, Structural)]
pub enum CameraStep {
    /// The position moves one step along the axis, forward or back.
    Move { axis: usize, forward: bool },
    /// The effect is switched on or off.
    Toggle,
    /// Nothing changes.
    Nothing,
}

/// What the key `key` does to the camera when it goes down; nothing when it comes up,
/// and nothing where the key is not known.
pub open spec fn camera_step_of(key: Option<Key>, state: ElementState) -> CameraStep {
    if state == ElementState::Pressed {
        match key {
            Some(Key::W) => CameraStep::Move { axis: 1, forward: true },
            Some(Key::S) => CameraStep::Move { axis: 1, forward: false },
            Some(Key::D) => CameraStep::Move { axis: 0, forward: true },
            Some(Key::A) => CameraStep::Move { axis: 0, forward: false },
            Some(Key::Q) => CameraStep::Move { axis: 2, forward: true },
            Some(Key::E) => CameraStep::Move { axis: 2, forward: false },
            Some(Key::Space) => CameraStep::Toggle,
            _ => CameraStep::Nothing,
        }
    } else {
        CameraStep::Nothing
    }
}

/// What the key `key` does to the camera.
pub fn camera_step(key: Option<Key>, state: ElementState) -> (step: CameraStep)
    ensures
        step == camera_step_of(key, state),
        step matches CameraStep::Move { axis, .. } ==> axis < 3,
{
    match state {
        ElementState::Released => CameraStep::Nothing,
        ElementState::Pressed => match key {
            Some(Key::W) => CameraStep::Move { axis: 1, forward: true },
            Some(Key::S) => CameraStep::Move { axis: 1, forward: false },
            Some(Key::D) => CameraStep::Move { axis: 0, forward: true },
            Some(Key::A) => CameraStep::Move { axis: 0, forward: false },
            Some(Key::Q) => CameraStep::Move { axis: 2, forward: true },
            Some(Key::E) => CameraStep::Move { axis: 2, forward: false },
            Some(Key::Space) => CameraStep::Toggle,
            _ => CameraStep::Nothing,
        },
    }
}

/// The part of a camera that is no number: whether the effect is on, and whether the
/// camera has changed since it was last uploaded.
#[derive(Clone, Copy, Debug, PartialEq, Eq, Structural)]
pub struct CameraFlags {
    pub activated: bool,
    pub modified: bool,
}

impl CameraFlags {
    /// The flags of a camera that was just uploaded with the effect off.
    pub fn new() -> (flags: Self)
        ensures
            flags == (CameraFlags { activated: false, modified: false }),
    {
        CameraFlags { activated: false, modified: false }
    }

    /// The flags after `step`: a move and a toggle both change the camera, and a
    /// toggle switches the effect.
    pub open spec fn spec_after(self, step: CameraStep) -> Self {
        match step {
            CameraStep::Move { axis, forward } => CameraFlags {
                activated: self.activated,
                modified: true,
            },
            CameraStep::Toggle => CameraFlags { activated: !self.activated, modified: true },
            CameraStep::Nothing => self,
        }
    }

    /// Takes `step`.
    pub fn apply(&mut self, step: CameraStep)
        ensures
            *final(self) == old(self).spec_after(step),
    {
        match step {
            CameraStep::Move { axis, forward } => {
                self.modified = true;
            },
            CameraStep::Toggle => {
                self.activated = !self.activated;
                self.modified = true;
            },
            CameraStep::Nothing => {},
        }
    }

    /// Takes a move of the pointer: the camera turns while shift is held, and counts
    /// as changed where the pointer moved along both axes.
    pub fn pointer_moved(&mut self, shift: bool, moved_x: bool, moved_y: bool) -> (turns: bool)
        ensures
            turns == shift,
            final(self).activated == old(self).activated,
            final(self).modified == (old(self).modified || (shift && moved_x && moved_y)),
    {
        if shift && moved_x && moved_y {
            self.modified = true;
        }
        shift
    }

    /// Whether the camera has to be uploaded before the next frame; it then counts as
    /// uploaded.
    pub fn take_upload(&mut self) -> (upload: bool)
        ensures
            upload == old(self).modified,
            !final(self).modified,
            final(self).activated == old(self).activated,
    {
        let upload = self.modified;
        self.modified = false;
        upload
    }
}

/// What one frame of a double-buffered simulation does: whether it first writes the
/// initial state into both regions, and which of the two bind groups it computes with.
#[derive(Clone, Copy, Debug, PartialEq, Eq, Structural)]
pub struct FramePlan {
    pub reseed: bool,
    pub group: usize,
}

/// The state of a double-buffered simulation between frames.
#[derive(Clone, Copy, Debug, PartialEq, Eq, Structural)]
pub struct Simulation {
    pub frames: FrameCounter,
    pub reset: bool,
}

impl Simulation {
    /// The simulation before its first frame.
    pub fn new() -> (s: Self)
        ensures
            s.frames.frame_num == 0,
            !s.reset,
    {
        Simulation { frames: FrameCounter::new(), reset: false }
    }

    /// Takes a key: space going down asks for a reset, nothing else does anything.
    pub fn key(&mut self, key: Option<Key>, state: ElementState)
        ensures
            final(self).frames == old(self).frames,
            final(self).reset == (old(self).reset || (key == Some(Key::Space) && state
                == ElementState::Pressed)),
    {
        match (key, state) {
            (Some(Key::Space), ElementState::Pressed) => {
                self.reset = true;
            },
            _ => {},
        }
    }

    /// The plan of the next frame.  A reset that was asked for is carried out once; the
    /// frame computes with the bind group that reads the region written last.
    pub fn next_frame(&mut self) -> (plan: FramePlan)
        ensures
            plan.reseed == old(self).reset,
            plan.group == read_index(old(self).frames.frame_num as int),
            !final(self).reset,
            final(self).frames.frame_num == (old(self).frames.frame_num + 1) % 256,
    {
        let plan = FramePlan { reseed: self.reset, group: self.frames.read_slot() };
        self.reset = false;
        self.frames.advance();
        plan
    }
}

/// A request that input raises and the next frame carries out once.
#[derive(Clone, Copy, Debug, PartialEq, Eq, Structural)]
pub struct Latch {
    pub raised: bool,
}

impl Latch {
    /// A latch that is not raised.
    pub fn new() -> (l: Self)
        ensures
            !l.raised,
    {
        Latch { raised: false }
    }

    /// Takes a key: space raises the latch, going down or coming up.
    pub fn key(&mut self, key: Option<Key>)
        ensures
            final(self).raised == (old(self).raised || key == Some(Key::Space)),
    {
        match key {
            Some(Key::Space) => {
                self.raised = true;
            },
            _ => {},
        }
    }

    /// Whether the latch was raised; it is not any more.
    pub fn take(&mut self) -> (was: bool)
        ensures
            was == old(self).raised,
            !final(self).raised,
    {
        let was = self.raised;
        self.raised = false;
        was
    }
}

} // verus!
