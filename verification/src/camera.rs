//! The camera: two offsets that the held keys move, and the view they give.
//!
//! Lengths are whole numbers of thousandths of a world unit.

use vstd::prelude::*;

verus! {

/// The largest offset, distance or step that a camera holds, either way.
pub const LIMIT: i64 = 1_000_000_000_000;

/// One of the four ways in which the keyboard moves the camera.
#[derive(Debug, Clone, Copy, PartialEq, Eq, Structural)]
pub enum Direction {
    Forward,
    Left,
    Back,
    Right,
}

/// Which movement keys are held down.
#[derive(Debug, Clone, Copy, PartialEq, Eq, Structural)]
pub struct InputState {
    pub forward: bool,
    pub left: bool,
    pub back: bool,
    pub right: bool,
}

impl InputState {
    /// No key held.
    pub fn new() -> (s: InputState)
        ensures
            s == (InputState { forward: false, left: false, back: false, right: false }),
    {
        InputState { forward: false, left: false, back: false, right: false }
    }

    /// This state with the key of `direction` held or released.
    pub open spec fn with(self, direction: Direction, held: bool) -> InputState {
        match direction {
            Direction::Forward => InputState { forward: held, ..self },
            Direction::Left => InputState { left: held, ..self },
            Direction::Back => InputState { back: held, ..self },
            Direction::Right => InputState { right: held, ..self },
        }
    }

    /// Records that the key of `direction` went down or up.
    pub fn set(&mut self, direction: Direction, held: bool)
        ensures
            *final(self) == old(self).with(direction, held),
    {
        match direction {
            Direction::Forward => { self.forward = held; },
            Direction::Left => { self.left = held; },
            Direction::Back => { self.back = held; },
            Direction::Right => { self.right = held; },
        }
    }

    /// Whether any movement key is held.
    #[verifier::allow_in_spec]
    pub fn any_held(&self) -> bool
        returns
            self.forward || self.left || self.back || self.right,
    {
        self.forward || self.left || self.back || self.right
    }

    /// How many steps one frame moves along x: forward counts up, back
    /// counts down.
    pub open spec fn steps_x(self) -> int {
        (if self.forward { 1int } else { 0 }) - (if self.back { 1int } else { 0 })
    }

    /// How many steps one frame moves along y: left counts up, right counts
    /// down.
    pub open spec fn steps_y(self) -> int {
        (if self.left { 1int } else { 0 }) - (if self.right { 1int } else { 0 })
    }
}

/// A point or a direction in world space.
#[derive(Debug, Clone, Copy, PartialEq, Eq, Structural)]
pub struct Point {
    pub x: i64,
    pub y: i64,
    pub z: i64,
}

/// What a view transform is made from: where the eye is, what it looks at,
/// and which way is up.
#[derive(Debug, Clone, Copy, PartialEq, Eq, Structural)]
pub struct LookAt {
    pub eye: Point,
    pub target: Point,
    pub up: Point,
}

/// The nearest value to `v` that a camera holds.
pub open spec fn clamp(v: int) -> int {
    if v < -LIMIT {
        -LIMIT as int
    } else if v > LIMIT {
        LIMIT as int
    } else {
        v
    }
}

/// The camera as a mathematical value.
pub struct Camera {
    pub x: int,
    pub y: int,
    pub distance: int,
    pub sensitivity: int,
}

impl Camera {
    /// Every field lies within [`LIMIT`] of zero.
    pub open spec fn wf(self) -> bool {
        &&& -LIMIT <= self.x <= LIMIT
        &&& -LIMIT <= self.y <= LIMIT
        &&& -LIMIT <= self.distance <= LIMIT
        &&& -LIMIT <= self.sensitivity <= LIMIT
    }

    /// The camera after one frame with `input` held: each held key moves its
    /// axis by one step of `sensitivity`, opposite keys cancel, and an offset
    /// stops at the limit.
    pub open spec fn advance(self, input: InputState) -> Camera {
        Camera {
            x: clamp(self.x + input.steps_x() * self.sensitivity),
            y: clamp(self.y + input.steps_y() * self.sensitivity),
            ..self
        }
    }

    /// The camera after one frame for each entry of `frames`, in order.
    pub open spec fn after(self, frames: Seq<InputState>) -> Camera
        decreases frames.len(),
    {
        if frames.len() == 0 {
            self
        } else {
            self.after(frames.drop_last()).advance(frames.last())
        }
    }

    /// The view from this camera: the eye stands `distance` off the target
    /// along all three axes, the target lies in the ground plane, and z is
    /// up.
    pub open spec fn look_at(self) -> LookAt {
        LookAt {
            eye: Point {
                x: (self.x + self.distance) as i64,
                y: (self.y + self.distance) as i64,
                z: self.distance as i64,
            },
            target: Point { x: self.x as i64, y: self.y as i64, z: 0 },
            up: Point { x: 0, y: 0, z: 1 },
        }
    }
}

/// A perspective projection: the field of view in whole degrees, the aspect
/// ratio in thousandths, and the near and far planes in thousandths of a
/// world unit.
#[derive(Debug, Clone, Copy, PartialEq, Eq, Structural)]
pub struct Projection {
    pub fov_degrees: u16,
    pub aspect: u32,
    pub near: u32,
    pub far: u32,
}

impl Projection {
    /// The projection opens to less than a half turn, has a shape, and its
    /// near plane lies before the eye and nearer than its far plane.
    pub open spec fn wf(self) -> bool {
        &&& 0 < self.fov_degrees < 180
        &&& 0 < self.aspect
        &&& 0 < self.near < self.far
    }

    /// Tells whether a projection can be computed from these values.
    pub fn is_wf(&self) -> (r: bool)
        ensures
            r == self.wf(),
    {
        0 < self.fov_degrees && self.fov_degrees < 180 && 0 < self.aspect && 0 < self.near
            && self.near < self.far
    }
}

/// The projection of the scene: fifty degrees, four to three, from one unit
/// to ten.
#[verifier::allow_in_spec]
pub fn projection() -> Projection
    returns
        (Projection { fov_degrees: 50, aspect: 1330, near: 1000, far: 10000 }),
{
    Projection { fov_degrees: 50, aspect: 1330, near: 1000, far: 10000 }
}

/// The steps along x that a run of frames adds up to.
pub open spec fn net_x(frames: Seq<InputState>) -> int
    decreases frames.len(),
{
    if frames.len() == 0 {
        0
    } else {
        net_x(frames.drop_last()) + frames.last().steps_x()
    }
}

/// The steps along y that a run of frames adds up to.
pub open spec fn net_y(frames: Seq<InputState>) -> int
    decreases frames.len(),
{
    if frames.len() == 0 {
        0
    } else {
        net_y(frames.drop_last()) + frames.last().steps_y()
    }
}

/// Integration is exact: as long as no frame takes an offset past the limit,
/// the camera after a run of frames stands at its start plus one step of
/// `sensitivity` for each key held in each frame.
pub proof fn lemma_offsets_are_sums(start: Camera, frames: Seq<InputState>)
    requires
        start.wf(),
        forall|k: int|
            0 <= k <= frames.len() ==> {
                &&& -LIMIT <= start.x + #[trigger] net_x(frames.take(k)) * start.sensitivity
                    <= LIMIT
                &&& -LIMIT <= start.y + net_y(frames.take(k)) * start.sensitivity <= LIMIT
            },
    ensures
        start.after(frames).x == start.x + net_x(frames) * start.sensitivity,
        start.after(frames).y == start.y + net_y(frames) * start.sensitivity,
        start.after(frames).distance == start.distance,
        start.after(frames).sensitivity == start.sensitivity,
    decreases frames.len(),
{
    if frames.len() > 0 {
        let earlier = frames.drop_last();
        assert forall|k: int| 0 <= k <= earlier.len() implies {
            &&& -LIMIT <= start.x + #[trigger] net_x(earlier.take(k)) * start.sensitivity <= LIMIT
            &&& -LIMIT <= start.y + net_y(earlier.take(k)) * start.sensitivity <= LIMIT
        } by {
            assert(earlier.take(k) =~= frames.take(k));
        }
        lemma_offsets_are_sums(start, earlier);
        assert(frames.take(frames.len() as int) =~= frames);
        let s = start.sensitivity;
        assert((net_x(earlier) + frames.last().steps_x()) * s == net_x(earlier) * s
            + frames.last().steps_x() * s) by (nonlinear_arith);
        assert((net_y(earlier) + frames.last().steps_y()) * s == net_y(earlier) * s
            + frames.last().steps_y() * s) by (nonlinear_arith);
    }
}

/// The view depends on the offsets and the distance, and on nothing else.
pub proof fn lemma_view_is_a_function_of_offsets(a: Camera, b: Camera)
    requires
        a.x == b.x,
        a.y == b.y,
        a.distance == b.distance,
    ensures
        a.look_at() == b.look_at(),
{
}

/// The state of the camera.
#[derive(Debug, Clone, Copy)]
pub struct CameraState {
    x: i64,
    y: i64,
    distance: i64,
    sensitivity: i64,
}

impl View for CameraState {
    type V = Camera;

    closed spec fn view(&self) -> Camera {
        Camera {
            x: self.x as int,
            y: self.y as int,
            distance: self.distance as int,
            sensitivity: self.sensitivity as int,
        }
    }
}

/// `v` moved by `steps` steps of `step`, stopping at the limit.
fn moved(v: i64, steps: i8, step: i64) -> (r: i64)
    requires
        -LIMIT <= v <= LIMIT,
        -LIMIT <= step <= LIMIT,
        -1 <= steps <= 1,
    ensures
        r == clamp(v + steps * step),
{
    assert(steps * step == if steps > 0 {
        step as int
    } else if steps < 0 {
        -step
    } else {
        0
    }) by (nonlinear_arith)
        requires
            -1 <= steps <= 1,
    ;
    let to: i64 = if steps > 0 {
        v + step
    } else if steps < 0 {
        v - step
    } else {
        v
    };
    if to < -LIMIT {
        -LIMIT
    } else if to > LIMIT {
        LIMIT
    } else {
        to
    }
}

impl CameraState {
    #[verifier::type_invariant]
    spec fn inv(self) -> bool {
        self@.wf()
    }

    /// A camera at the origin, or `None` where `distance` or `sensitivity`
    /// lies further than [`LIMIT`] from zero.
    pub fn new(distance: i64, sensitivity: i64) -> (r: Option<CameraState>)
        ensures
            match r {
                Some(c) => c@ == (Camera {
                    x: 0,
                    y: 0,
                    distance: distance as int,
                    sensitivity: sensitivity as int,
                }) && c@.wf(),
                None => !(-LIMIT <= distance <= LIMIT && -LIMIT <= sensitivity <= LIMIT),
            },
    {
        if -LIMIT <= distance && distance <= LIMIT && -LIMIT <= sensitivity && sensitivity
            <= LIMIT {
            Some(CameraState { x: 0, y: 0, distance, sensitivity })
        } else {
            None
        }
    }

    /// The offset along x.
    pub fn x(&self) -> (r: i64)
        ensures
            r == self@.x,
            self@.wf(),
    {
        proof {
            use_type_invariant(self);
        }
        self.x
    }

    /// The offset along y.
    pub fn y(&self) -> (r: i64)
        ensures
            r == self@.y,
            self@.wf(),
    {
        proof {
            use_type_invariant(self);
        }
        self.y
    }

    /// How far the eye stands off its target, along each axis.
    pub fn distance(&self) -> (r: i64)
        ensures
            r == self@.distance,
    {
        self.distance
    }

    /// How far one held key moves the camera in one frame.
    pub fn sensitivity(&self) -> (r: i64)
        ensures
            r == self@.sensitivity,
    {
        self.sensitivity
    }

    /// Moves the camera by one frame with `input` held.
    pub fn advance(&mut self, input: &InputState)
        ensures
            final(self)@ == old(self)@.advance(*input),
            final(self)@.wf(),
    {
        proof {
            use_type_invariant(&*self);
        }
        let sx: i8 = if input.forward { 1i8 } else { 0i8 } - if input.back { 1i8 } else { 0i8 };
        let sy: i8 = if input.left { 1i8 } else { 0i8 } - if input.right { 1i8 } else { 0i8 };
        self.x = moved(self.x, sx, self.sensitivity);
        self.y = moved(self.y, sy, self.sensitivity);
    }

    /// The view from the camera as it stands.
    pub fn look_at(&self) -> (r: LookAt)
        ensures
            r == self@.look_at(),
            self@.wf(),
    {
        proof {
            use_type_invariant(self);
        }
        LookAt {
            eye: Point {
                x: self.x + self.distance,
                y: self.y + self.distance,
                z: self.distance,
            },
            target: Point { x: self.x, y: self.y, z: 0 },
            up: Point { x: 0, y: 0, z: 1 },
        }
    }
}

} // verus!
