//! The camera: an eye position with fixed front and up vectors, moved by
//! discrete directional commands, and turned into a view matrix by a
//! look-at computation.

use vstd::prelude::*;

verus! {

use crate::linalg::Mat4Bits;
use crate::linalg::Vec3Bits;
use crate::linalg::look_at4_of;
use crate::linalg::vadd3;
use crate::linalg::vsub3;
use crate::linalg::vscale3;
use crate::linalg::vcross3;
use crate::linalg::vnormalize3;
use crate::linalg::vcmul3;
use crate::linalg::mat_look_at;
use crate::linalg::vec_component_mul;
use crate::linalg::vec_add;
use crate::linalg::vec_sub;
use crate::linalg::vec_scale;
use crate::linalg::vec_cross;
use crate::linalg::vec_normalize;

/// A key the event loop may forward; anything the camera does not recognize
/// arrives as `Other`.
#[derive(Clone, Copy, PartialEq, Eq, Structural, Debug)]
pub enum Key {
    W,
    S,
    A,
    D,
    Other,
}

/// The action reported with a key.
#[derive(Clone, Copy, PartialEq, Eq, Structural, Debug)]
pub enum Action {
    Press,
    Release,
    Repeat,
}

/// An eye position with a fixed orientation. Components are single-precision
/// bit patterns.
#[derive(Clone, Copy, PartialEq, Eq, Structural, Debug)]
pub struct Camera {
    pub pos: Vec3Bits,
    pub front: Vec3Bits,
    pub up: Vec3Bits,
    pub speed: u32,
}

/// The displacement one recognized movement command applies: along `front`
/// for forward/backward, along the normalized cross product of `front` and
/// `up` for strafing — in both cases scaled by `speed`.
pub open spec fn camera_delta(c: Camera, key: Key) -> Vec3Bits {
    match key {
        Key::W | Key::S => vscale3(c.speed, c.front),
        Key::A | Key::D => vscale3(c.speed, vnormalize3(vcross3(c.front, c.up))),
        Key::Other => Vec3Bits { x: 0, y: 0, z: 0 },
    }
}

/// The camera after one key event: only a press of a recognized key moves
/// the position, and nothing else ever changes.
pub open spec fn camera_step(c: Camera, key: Key, action: Action) -> Camera {
    if action is Press {
        match key {
            Key::W => Camera { pos: vadd3(c.pos, camera_delta(c, key)), ..c },
            Key::S => Camera { pos: vsub3(c.pos, camera_delta(c, key)), ..c },
            Key::A => Camera { pos: vsub3(c.pos, camera_delta(c, key)), ..c },
            Key::D => Camera { pos: vadd3(c.pos, camera_delta(c, key)), ..c },
            Key::Other => c,
        }
    } else {
        c
    }
}

/// The view matrix of a camera: a look-at from the position toward the
/// component-wise product of position and front. (The component-wise
/// product — rather than the sum — is a deliberate quirk of this design,
/// kept for fidelity; see the crate notes.)
pub open spec fn camera_view(c: Camera) -> Seq<u32> {
    look_at4_of(
        c.pos.x, c.pos.y, c.pos.z,
        vcmul3(c.pos, c.front).x, vcmul3(c.pos, c.front).y, vcmul3(c.pos, c.front).z,
        c.up.x, c.up.y, c.up.z,
    )
}

/// Movement is additive and deterministic: a key press never changes the
/// orientation or the speed, so pressing the same recognized key twice
/// displaces the position by exactly the same delta twice, and an
/// unrecognized key never moves anything.
pub proof fn lemma_double_step(c: Camera, key: Key)
    ensures
        camera_delta(camera_step(c, key, Action::Press), key) == camera_delta(c, key),
        (key is W || key is D) ==> camera_step(camera_step(c, key, Action::Press), key, Action::Press).pos
            == vadd3(vadd3(c.pos, camera_delta(c, key)), camera_delta(c, key)),
        (key is S || key is A) ==> camera_step(camera_step(c, key, Action::Press), key, Action::Press).pos
            == vsub3(vsub3(c.pos, camera_delta(c, key)), camera_delta(c, key)),
        key is Other ==> camera_step(c, key, Action::Press) == c,
        camera_step(c, key, Action::Release) == c,
        camera_step(c, key, Action::Repeat) == c,
{
}

/// The starting camera: at `(0, 0, 3)`, looking down the negative z axis
/// with the positive y axis up, moving half a unit per command.
/// (`0x4040_0000` is `3.0`, `0xBF80_0000` is `-1.0`, `0x3F80_0000` is
/// `1.0`, and `0x3F00_0000` is `0.5`.)
pub open spec fn initial_camera() -> Camera {
    Camera {
        pos: Vec3Bits { x: 0, y: 0, z: 0x4040_0000 },
        front: Vec3Bits { x: 0, y: 0, z: 0xBF80_0000 },
        up: Vec3Bits { x: 0, y: 0x3F80_0000, z: 0 },
        speed: 0x3F00_0000u32,
    }
}

impl Camera {
    /// A camera in the starting position and orientation.
    pub fn new() -> (c: Camera)
        ensures
            c == initial_camera(),
    {
        Camera {
            pos: Vec3Bits { x: 0, y: 0, z: 0x4040_0000 },
            front: Vec3Bits { x: 0, y: 0, z: 0xBF80_0000 },
            up: Vec3Bits { x: 0, y: 0x3F80_0000, z: 0 },
            speed: 0x3F00_0000,
        }
    }

    /// The view matrix for the current position and orientation.
    pub fn view(&self) -> (m: Mat4Bits)
        ensures
            m@ == camera_view(*self),
            m.wf(),
    {
        let center = vec_component_mul(self.pos, self.front);
        mat_look_at(self.pos, center, self.up)
    }

    /// Consumes a press of one of the four movement keys by displacing the
    /// position; reports anything else as not consumed and leaves the
    /// camera unchanged.
    pub fn key_event(&mut self, key: Key, _scancode: i32, action: Action, _modifiers: u32) -> (consumed: bool)
        ensures
            consumed == (action is Press && !(key is Other)),
            *final(self) == camera_step(*old(self), key, action),
    {
        match (key, action) {
            (Key::W, Action::Press) => {
                let delta = vec_scale(self.speed, self.front);
                self.pos = vec_add(self.pos, delta);
                true
            },
            (Key::S, Action::Press) => {
                let delta = vec_scale(self.speed, self.front);
                self.pos = vec_sub(self.pos, delta);
                true
            },
            (Key::A, Action::Press) => {
                let strafe = vec_normalize(vec_cross(self.front, self.up));
                let delta = vec_scale(self.speed, strafe);
                self.pos = vec_sub(self.pos, delta);
                true
            },
            (Key::D, Action::Press) => {
                let strafe = vec_normalize(vec_cross(self.front, self.up));
                let delta = vec_scale(self.speed, strafe);
                self.pos = vec_add(self.pos, delta);
                true
            },
            _ => false,
        }
    }
}

} // verus!
