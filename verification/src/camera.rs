//! Cameras and their movement switches.

use crate::scalar::Scalar;
use crate::scalar::ONE_BITS;
use crate::vectors::vector_three::Vector3;
use vstd::prelude::*;

verus! {

/// A movement that a control can switch on and off.
#[derive(Clone, Copy, Debug, PartialEq, Eq, Structural)]
pub enum CameraDirections {
    Forward,
    Backwards,
    Left,
    Right,
    Up,
    Down,
    SpinRight,
    SpinLeft,
    SpinForward,
    SpinBackward,
}

/// The number of movement switches.
pub const MOVEMENTS: usize = 10;

impl CameraDirections {
    /// The place of the movement's switch among the ten.
    pub open spec fn spec_slot(&self) -> usize {
        match self {
            CameraDirections::Forward => 0,
            CameraDirections::Backwards => 1,
            CameraDirections::Left => 2,
            CameraDirections::Right => 3,
            CameraDirections::Up => 4,
            CameraDirections::Down => 5,
            CameraDirections::SpinLeft => 6,
            CameraDirections::SpinRight => 7,
            CameraDirections::SpinForward => 8,
            CameraDirections::SpinBackward => 9,
        }
    }

    #[verifier::when_used_as_spec(spec_slot)]
    pub fn slot(&self) -> (place: usize)
        ensures
            place == self.spec_slot(),
            place < MOVEMENTS,
    {
        match self {
            CameraDirections::Forward => 0,
            CameraDirections::Backwards => 1,
            CameraDirections::Left => 2,
            CameraDirections::Right => 3,
            CameraDirections::Up => 4,
            CameraDirections::Down => 5,
            CameraDirections::SpinLeft => 6,
            CameraDirections::SpinRight => 7,
            CameraDirections::SpinForward => 8,
            CameraDirections::SpinBackward => 9,
        }
    }

    /// No two movements share a switch.
    pub proof fn lemma_slots_differ(a: CameraDirections, b: CameraDirections)
        ensures
            a.spec_slot() == b.spec_slot() <==> a == b,
    {
    }
}

/// The bit pattern of three, the speed at which a camera moves unless told
/// otherwise.
pub const DEFAULT_MOVE_SPEED_BITS: u32 = 0x4040_0000;

/// A camera: where it stands, where it looks, which way is up for it, how fast
/// it moves and turns, whether it obeys its controls at all, and which
/// movements are switched on.
#[derive(Clone, Copy, Debug)]
pub struct Camera {
    pub position: Vector3,
    pub direction: Vector3,
    pub up: Vector3,
    pub move_speed: Scalar,
    pub rotate_speed: Scalar,
    pub movement: [bool; 10],
    pub is_controlled: bool,
}

/// The vector has a component that is not equal to zero.
pub open spec fn spec_is_not_zero(v: Vector3) -> bool {
    let zero = Scalar { bits: 0 };
    !v.x.spec_equals(zero) || !v.y.spec_equals(zero) || !v.z.spec_equals(zero)
}

#[verifier::when_used_as_spec(spec_is_not_zero)]
pub fn is_not_zero(v: Vector3) -> (r: bool)
    ensures
        r == spec_is_not_zero(v),
{
    let zero = Scalar::zero();
    !v.x.equals(zero) || !v.y.equals(zero) || !v.z.equals(zero)
}

impl Camera {
    /// The direction in which a new camera looks: the one asked for, unless
    /// none is asked for or the one asked for is zero; then along x.
    pub open spec fn start_direction(start_dir: Option<Vector3>) -> Vector3 {
        match start_dir {
            Some(d) if spec_is_not_zero(d) => d,
            _ => Vector3::of_bits(ONE_BITS, 0, 0),
        }
    }

    /// A camera that stands at `start_pos`, or at the origin, and looks along
    /// `start_dir`, or along x. Up is against y for it. It moves at speed
    /// three and turns at speed one unless other speeds are given. All its
    /// switches are off, and it does not obey its controls yet.
    pub fn new(
        start_pos: Option<Vector3>,
        start_dir: Option<Vector3>,
        move_speed: Option<Scalar>,
        rotate_speed: Option<Scalar>,
    ) -> (camera: Camera)
        ensures
            camera.position == match start_pos {
                Some(p) => p,
                None => Vector3::of_bits(0, 0, 0),
            },
            camera.direction == Camera::start_direction(start_dir),
            camera.up == Vector3::of_bits(0, ONE_BITS, 0).spec_negated(),
            camera.move_speed == match move_speed {
                Some(speed) => speed,
                None => Scalar { bits: DEFAULT_MOVE_SPEED_BITS },
            },
            camera.rotate_speed == match rotate_speed {
                Some(speed) => speed,
                None => Scalar { bits: ONE_BITS },
            },
            !camera.is_controlled,
            forall|i: int| 0 <= i < MOVEMENTS ==> !(#[trigger] camera.movement@[i]),
    {
        let position = match start_pos {
            Some(p) => p,
            None => Vector3::ZERO(),
        };
        let direction = match start_dir {
            Some(d) => if is_not_zero(d) {
                d
            } else {
                Vector3::X()
            },
            None => Vector3::X(),
        };
        let move_speed = match move_speed {
            Some(speed) => speed,
            None => Scalar::from_bits(DEFAULT_MOVE_SPEED_BITS),
        };
        let rotate_speed = match rotate_speed {
            Some(speed) => speed,
            None => Scalar::one(),
        };
        Camera {
            position,
            direction,
            up: Vector3::Y().negated(),
            move_speed,
            rotate_speed,
            movement: [false; 10],
            is_controlled: false,
        }
    }

    /// Lets the camera obey its controls.
    pub fn controllable(&mut self)
        ensures
            *final(self) == (Camera { is_controlled: true, ..*old(self) }),
    {
        self.is_controlled = true;
    }

    /// Switches between obeying the controls and not.
    pub fn toggle_controlled(&mut self)
        ensures
            *final(self) == (Camera { is_controlled: !old(self).is_controlled, ..*old(self) }),
    {
        self.is_controlled = !self.is_controlled;
    }

    /// Sets the switch of the movement that a control stands for to `state`.
    /// A control that stands for no movement changes nothing.
    pub fn process_input(&mut self, direction: Option<CameraDirections>, state: bool)
        ensures
            direction is None ==> *final(self) == *old(self),
            direction matches Some(d) ==> final(self).movement@ == old(self).movement@.update(
                d.spec_slot() as int,
                state,
            ),
            final(self).position == old(self).position,
            final(self).direction == old(self).direction,
            final(self).up == old(self).up,
            final(self).move_speed == old(self).move_speed,
            final(self).rotate_speed == old(self).rotate_speed,
            final(self).is_controlled == old(self).is_controlled,
    {
        match direction {
            Some(d) => {
                let place = d.slot();
                self.movement[place] = state;
            },
            None => {},
        }
    }
}

} // verus!
