//! The transforms of a frame: the camera, the animation clock, and the
//! recipe by which the model-view matrix is composed.
//!
//! Nothing here multiplies matrices. The numbers that go into them are kept
//! exact, as integers and ratios of integers, and the order in which the
//! transforms are applied is part of the data; the host evaluates the recipe
//! in its own arithmetic.

use vstd::prelude::*;
use crate::error::Fatal;
use crate::mesh::Vector3;

verus! {

/// The vertical field of view, in degrees.
pub const FIELD_OF_VIEW_DEGREES: u32 = 45;

/// The near clip distance is `NEAR_NUMERATOR / NEAR_DENOMINATOR`.
pub const NEAR_NUMERATOR: i128 = 1;

pub const NEAR_DENOMINATOR: u32 = 10;

/// The far clip distance.
pub const FAR: i128 = 100;

/// How far the cube stands in front of the camera.
pub const DISTANCE: i8 = 6;

/// The second rotation turns by `COUPLING_NUMERATOR / COUPLING_DENOMINATOR`
/// of the angle of the first.
pub const COUPLING_NUMERATOR: i128 = 7;

pub const COUPLING_DENOMINATOR: u32 = 10;

/// The first rotation turns by one radian in this many milliseconds.
pub const MILLIS_PER_RADIAN: u32 = 1000;

/// The number `num / den`.
#[derive(Clone, Copy, Debug, PartialEq, Eq, Structural)]
pub struct Ratio {
    pub num: i128,
    /// The denominator, which is positive.
    pub den: u32,
}

impl Ratio {
    pub open spec fn wf(self) -> bool {
        self.den > 0
    }

    /// Two ratios stand for the same number.
    pub open spec fn same_value(self, other: Ratio) -> bool {
        self.num * other.den == other.num * self.den
    }

    /// The number of `self` is below that of `other`.
    pub open spec fn below(self, other: Ratio) -> bool {
        self.num * other.den < other.num * self.den
    }
}

/// The camera: a symmetric perspective frustum.
#[derive(Clone, Copy, Debug, PartialEq, Eq, Structural)]
pub struct CameraParams {
    /// The vertical field of view, in degrees.
    pub fov_degrees: u32,
    /// The width of the drawing surface; the aspect ratio is `width / height`.
    pub width: i32,
    /// The height of the drawing surface.
    pub height: i32,
    pub near: Ratio,
    pub far: Ratio,
}

impl CameraParams {
    /// The field of view is a proper angle, the aspect ratio is positive,
    /// and the clip distances are `0 < near < far`.
    pub open spec fn wf(self) -> bool {
        &&& 0 < self.fov_degrees < 180
        &&& self.width > 0
        &&& self.height > 0
        &&& self.near.wf()
        &&& self.far.wf()
        &&& self.near.num > 0
        &&& self.near.below(self.far)
    }

    /// The camera that looks at a surface of the given extent.
    pub open spec fn of_surface(width: i32, height: i32) -> CameraParams {
        CameraParams {
            fov_degrees: FIELD_OF_VIEW_DEGREES,
            width,
            height,
            near: Ratio { num: NEAR_NUMERATOR, den: NEAR_DENOMINATOR },
            far: Ratio { num: FAR, den: 1 },
        }
    }

    /// The camera for the surface as it is now. A surface without extent has
    /// no aspect ratio: that is a fatal failure of the frame.
    pub fn for_surface(width: i32, height: i32) -> (camera: Result<CameraParams, Fatal>)
        ensures
            width > 0 && height > 0 ==> camera == Ok::<CameraParams, Fatal>(
                CameraParams::of_surface(width, height),
            ),
            !(width > 0 && height > 0) ==> camera == Err::<CameraParams, Fatal>(
                Fatal::DegenerateSurface { width, height },
            ),
            camera matches Ok(c) ==> c.wf(),
    {
        if width > 0 && height > 0 {
            Ok(
                CameraParams {
                    fov_degrees: FIELD_OF_VIEW_DEGREES,
                    width,
                    height,
                    near: Ratio { num: NEAR_NUMERATOR, den: NEAR_DENOMINATOR },
                    far: Ratio { num: FAR, den: 1 },
                },
            )
        } else {
            Err(Fatal::DegenerateSurface { width, height })
        }
    }
}

/// The clock of the animation: when it started and what time it is, both in
/// milliseconds of the host's clock.
#[derive(Clone, Copy, Debug, PartialEq, Eq, Structural)]
pub struct AnimationClock {
    pub start_ms: u64,
    pub now_ms: u64,
}

impl AnimationClock {
    /// The time since the start, in milliseconds. It is negative where the
    /// host's clock went back.
    pub open spec fn spec_elapsed_ms(self) -> int {
        self.now_ms - self.start_ms
    }

    pub fn elapsed_ms(&self) -> (elapsed: i128)
        ensures
            elapsed == self.spec_elapsed_ms(),
    {
        self.now_ms as i128 - self.start_ms as i128
    }

    /// The angle of the first rotation, in radians: the elapsed time in
    /// seconds.
    pub open spec fn spec_first_angle(self) -> Ratio {
        Ratio { num: self.spec_elapsed_ms() as i128, den: MILLIS_PER_RADIAN }
    }

    /// The angle of the second rotation, in radians: seven tenths of the
    /// first.
    pub open spec fn spec_second_angle(self) -> Ratio {
        Ratio {
            num: (COUPLING_NUMERATOR * self.spec_elapsed_ms()) as i128,
            den: (COUPLING_DENOMINATOR * MILLIS_PER_RADIAN) as u32,
        }
    }

    pub fn first_angle(&self) -> (angle: Ratio)
        ensures
            angle == self.spec_first_angle(),
            angle.wf(),
            angle.num == self.spec_elapsed_ms(),
    {
        Ratio { num: self.elapsed_ms(), den: MILLIS_PER_RADIAN }
    }

    pub fn second_angle(&self) -> (angle: Ratio)
        ensures
            angle == self.spec_second_angle(),
            angle.wf(),
            angle.num == 7 * self.spec_elapsed_ms(),
            angle.den == 10000,
    {
        Ratio { num: COUPLING_NUMERATOR * self.elapsed_ms(), den: COUPLING_DENOMINATOR * MILLIS_PER_RADIAN }
    }
}

/// One step of the model-view recipe. Applying a step multiplies the matrix
/// so far, from the right, by the matrix of the step.
#[derive(Clone, Copy, Debug, PartialEq, Eq, Structural)]
pub enum Transform {
    /// A shift by the given vector.
    Translate { by: Vector3 },
    /// A turn about the given axis by the given angle, in radians.
    Rotate { angle: Ratio, axis: Vector3 },
}

/// The offset of the cube from the camera: six units down the negative z
/// axis.
pub open spec fn offset() -> Vector3 {
    Vector3::at(0, 0, -DISTANCE)
}

/// The axis of the first rotation.
pub open spec fn first_axis() -> Vector3 {
    Vector3::at(0, 0, 1)
}

/// The axis of the second rotation.
pub open spec fn second_axis() -> Vector3 {
    Vector3::at(0, 1, 0)
}

/// The model-view recipe at the given time: starting from the identity,
/// shift the cube away from the camera, then turn it about the first axis,
/// then about the second.
pub open spec fn spec_model_view(clock: AnimationClock) -> Seq<Transform> {
    seq![
        Transform::Translate { by: offset() },
        Transform::Rotate { angle: clock.spec_first_angle(), axis: first_axis() },
        Transform::Rotate { angle: clock.spec_second_angle(), axis: second_axis() },
    ]
}

/// The model-view recipe at the given time.
pub fn model_view(clock: &AnimationClock) -> (steps: Vec<Transform>)
    ensures
        steps@ == spec_model_view(*clock),
{
    let mut steps: Vec<Transform> = Vec::new();
    steps.push(Transform::Translate { by: Vector3 { x: 0, y: 0, z: -DISTANCE } });
    steps.push(Transform::Rotate { angle: clock.first_angle(), axis: Vector3 { x: 0, y: 0, z: 1 } });
    steps.push(Transform::Rotate { angle: clock.second_angle(), axis: Vector3 { x: 0, y: 1, z: 0 } });
    steps
}

/// Where a matrix of a frame comes from.
#[derive(Clone, Copy, Debug, PartialEq, Eq, Structural)]
pub enum MatrixSource {
    /// The perspective projection of the camera.
    Perspective,
    /// The product of the model-view recipe.
    ModelView,
    /// The transpose of the inverse of the model-view matrix.
    InverseTransposeOfModelView,
}

/// The angles in numbers: the first is the elapsed time over a thousand, the
/// second seven times the elapsed time over ten thousand.
pub proof fn lemma_angles(clock: AnimationClock)
    ensures
        clock.spec_first_angle().num == clock.spec_elapsed_ms(),
        clock.spec_first_angle().den == 1000,
        clock.spec_second_angle().num == 7 * clock.spec_elapsed_ms(),
        clock.spec_second_angle().den == 10000,
        clock.spec_second_angle().same_value(
            Ratio { num: (7 * clock.spec_first_angle().num) as i128, den: (10 * clock.spec_first_angle().den) as u32 },
        ),
{
}

/// The angles of the two rotations tell any two instants of one animation
/// apart: where the time differs, so does the number of each angle. So no
/// two ticks at different times leave the cube in the same rotation.
pub proof fn lemma_different_instants_turn_differently(start_ms: u64, a_ms: u64, b_ms: u64)
    requires
        a_ms != b_ms,
    ensures
        ({
            let a = AnimationClock { start_ms, now_ms: a_ms };
            let b = AnimationClock { start_ms, now_ms: b_ms };
            &&& !a.spec_first_angle().same_value(b.spec_first_angle())
            &&& !a.spec_second_angle().same_value(b.spec_second_angle())
            &&& spec_model_view(a) != spec_model_view(b)
        }),
{
    let a = AnimationClock { start_ms, now_ms: a_ms };
    let b = AnimationClock { start_ms, now_ms: b_ms };
    lemma_angles(a);
    lemma_angles(b);
    assert(spec_model_view(a)[1] != spec_model_view(b)[1]);
}

/// Over a run of ticks whose times increase strictly, the angle of the first
/// rotation increases strictly too, and so does that of the second: every
/// tick of the run has a rotation of its own.
pub proof fn lemma_increasing_ticks_turn_on(start_ms: u64, ticks: Seq<u64>)
    requires
        forall|i: int, j: int| 0 <= i < j < ticks.len() ==> ticks[i] < ticks[j],
    ensures
        forall|i: int, j: int|
            #![trigger ticks[i], ticks[j]]
            0 <= i < j < ticks.len() ==> {
                let a = AnimationClock { start_ms, now_ms: ticks[i] };
                let b = AnimationClock { start_ms, now_ms: ticks[j] };
                &&& a.spec_first_angle().below(b.spec_first_angle())
                &&& a.spec_second_angle().below(b.spec_second_angle())
                &&& spec_model_view(a) != spec_model_view(b)
            },
{
    assert forall|i: int, j: int| #![trigger ticks[i], ticks[j]] 0 <= i < j < ticks.len() implies {
        let a = AnimationClock { start_ms, now_ms: ticks[i] };
        let b = AnimationClock { start_ms, now_ms: ticks[j] };
        &&& a.spec_first_angle().below(b.spec_first_angle())
        &&& a.spec_second_angle().below(b.spec_second_angle())
        &&& spec_model_view(a) != spec_model_view(b)
    } by {
        let a = AnimationClock { start_ms, now_ms: ticks[i] };
        let b = AnimationClock { start_ms, now_ms: ticks[j] };
        lemma_angles(a);
        lemma_angles(b);
        lemma_different_instants_turn_differently(start_ms, ticks[i], ticks[j]);
    }
}

} // verus!
