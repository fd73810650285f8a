use vstd::prelude::*;
use crate::direction::{heading_of, lemma_opposed_keys_hold_still, velocity_for, DirectionalState};
use crate::geometry::{lemma_integration_linear, Vector2};

verus! {

/// Speed of the camera, in units per second.
pub const CAMERA_SPEED: u32 = 200;

/// The keys that steer the camera.
pub type CameraState = DirectionalState;

/// A camera: a point that moves under its own keys, apart from any entity.
#[derive(Clone, Copy, Debug, PartialEq, Eq)]
pub struct Camera {
    pub position: Vector2,
    pub state: CameraState,
}

/// The camera after moving for `dt` microseconds at the velocity its keys
/// ask for.
pub open spec fn camera_moved(c: Camera, dt: int) -> Camera {
    Camera {
        position: c.position.advanced(velocity_for(heading_of(c.state), CAMERA_SPEED as int), dt),
        ..c
    }
}

/// A camera that moves under its keys.
pub trait MovableCamera {
    /// Moves the camera for `time` microseconds.
    fn compute(&mut self, time: u64);

    fn mut_state(&mut self) -> &mut CameraState;
}

impl Camera {
    /// A camera at the origin holding no key.
    pub open spec fn initial() -> Camera {
        Camera { position: Vector2::zero_spec(), state: DirectionalState::released() }
    }

    pub fn new() -> (r: Camera)
        ensures
            r == Camera::initial(),
    {
        Camera { position: Vector2::zero(), state: DirectionalState::new() }
    }

    pub fn position(&self) -> (r: Vector2)
        ensures
            r == self.position,
    {
        self.position
    }

    /// The camera's velocity for the keys it holds.
    pub fn camera_speed(&self) -> (r: Vector2)
        ensures
            r == velocity_for(heading_of(self.state), CAMERA_SPEED as int),
    {
        self.state.velocity(CAMERA_SPEED)
    }
}

impl MovableCamera for Camera {
    fn compute(&mut self, time: u64)
        ensures
            *final(self) == camera_moved(*old(self), time as int),
    {
        self.position = self.position.integrate(self.camera_speed(), time);
    }

    fn mut_state(&mut self) -> (r: &mut CameraState)
        ensures
            *r == old(self).state,
            *final(self) == (Camera { state: *final(r), ..*old(self) }),
    {
        &mut self.state
    }
}

/// Moving the camera for `dt1` and then for `dt2` with the same keys lands
/// where moving it for `dt1 + dt2` does, as long as neither position leaves
/// the representable range.
pub proof fn lemma_camera_motion_linear(c: Camera, dt1: u64, dt2: u64)
    requires
        dt1 + dt2 <= u64::MAX,
        c.position.fits_after(velocity_for(heading_of(c.state), CAMERA_SPEED as int), dt1 as int),
        c.position.fits_after(velocity_for(heading_of(c.state), CAMERA_SPEED as int), dt1 + dt2),
    ensures
        camera_moved(camera_moved(c, dt1 as int), dt2 as int) == camera_moved(c, dt1 + dt2),
{
    let v = velocity_for(heading_of(c.state), CAMERA_SPEED as int);
    lemma_integration_linear(c.position, v, dt1, dt2);
}

/// A camera holding both vertical keys and no horizontal one stays where it
/// is, whatever the elapsed time.
pub proof fn lemma_camera_opposed_keys_hold_still(c: Camera, dt: u64)
    requires
        c.state.moving_up && c.state.moving_down && !c.state.moving_right && !c.state.moving_left,
    ensures
        camera_moved(c, dt as int) == c,
{
    lemma_opposed_keys_hold_still(c.state, CAMERA_SPEED, c.position, dt);
}

} // verus!
