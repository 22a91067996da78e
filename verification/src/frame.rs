//! The frame loop: what one iteration does with the events that are pending,
//! and which commands it hands to the window and the device, in order.
//!
//! The caller polls the events, calls [`FrameLoop::frame`] and performs the
//! commands it gets back, one after the other, until the loop has stopped.

use vstd::prelude::*;
use crate::camera::{Camera, CameraState, Direction, InputState, LookAt};
use crate::mesh::DrawSlice;

verus! {

/// The depth to which a depth target is cleared: the far plane, in
/// thousandths.
pub const FAR_DEPTH: u16 = 1000;

/// A key, as far as the loop tells keys apart.
#[derive(Debug, Clone, Copy, PartialEq, Eq, Structural)]
pub enum Key {
    Escape,
    W,
    A,
    S,
    D,
    Other,
}

/// What the window reports.
#[derive(Debug, Clone, Copy, PartialEq, Eq, Structural)]
pub enum Event {
    /// A key went down or up.
    Key { key: Key, pressed: bool },
    /// The window now has this physical size, in pixels.
    Resized { width: u32, height: u32 },
    /// The window was asked to close.
    CloseRequested,
    /// Anything else; it is ignored.
    Other,
}

/// What a key is bound to.
#[derive(Debug, Clone, Copy, PartialEq, Eq, Structural)]
pub enum Binding {
    Quit,
    Move(Direction),
}

/// The keyboard surface: Escape quits; W, A, S and D move forward, left,
/// back and right. No other key is bound.
#[verifier::allow_in_spec]
pub fn binding(key: Key) -> Option<Binding>
    returns
        (match key {
            Key::Escape => Some(Binding::Quit),
            Key::W => Some(Binding::Move(Direction::Forward)),
            Key::A => Some(Binding::Move(Direction::Left)),
            Key::S => Some(Binding::Move(Direction::Back)),
            Key::D => Some(Binding::Move(Direction::Right)),
            Key::Other => None,
        }),
{
    match key {
        Key::Escape => Some(Binding::Quit),
        Key::W => Some(Binding::Move(Direction::Forward)),
        Key::A => Some(Binding::Move(Direction::Left)),
        Key::S => Some(Binding::Move(Direction::Back)),
        Key::D => Some(Binding::Move(Direction::Right)),
        Key::Other => None,
    }
}

/// A colour, each channel in thousandths.
#[derive(Debug, Clone, Copy, PartialEq, Eq, Structural)]
pub struct Color {
    pub red: u16,
    pub green: u16,
    pub blue: u16,
    pub alpha: u16,
}

/// The colour to which the colour target is cleared: a near black, opaque.
#[verifier::allow_in_spec]
pub fn background() -> Color
    returns
        (Color { red: 20, green: 20, blue: 20, alpha: 1000 }),
{
    Color { red: 20, green: 20, blue: 20, alpha: 1000 }
}

/// What a draw call is bound to, as far as the loop decides it. Only the
/// transform changes from frame to frame.
#[derive(Debug, Clone, Copy, PartialEq, Eq, Structural)]
pub struct DrawData {
    /// Whether a texture and its sampler are bound.
    pub textured: bool,
    /// Whether a depth target is bound.
    pub depth: bool,
    /// What the uniform transform is computed from.
    pub transform: LookAt,
}

/// One thing for the caller to do.
#[derive(Debug, Clone, Copy, PartialEq, Eq, Structural)]
pub enum Command {
    /// Give the window's surface this physical size.
    Resize { width: u32, height: u32 },
    /// Compute the transform from this view and write it to the uniform.
    SetTransform(LookAt),
    /// Clear the colour target.
    ClearColor(Color),
    /// Clear the depth target to this depth, in thousandths.
    ClearDepth(u16),
    /// Draw this range with the pipeline and the draw data.
    Draw(DrawSlice),
    /// Submit what was recorded to the device.
    Flush,
    /// Show the frame; it was rendered at this size.
    Present { width: u32, height: u32 },
    /// Release what the frame allocated on the device.
    Cleanup,
}

/// Whether the loop still runs.
#[derive(Debug, Clone, Copy, PartialEq, Eq, Structural)]
pub enum Phase {
    Running,
    Stopped,
}

/// The loop as a mathematical value.
pub struct LoopModel {
    pub phase: Phase,
    pub input: InputState,
    pub camera: Camera,
    pub data: DrawData,
    pub slice: DrawSlice,
    pub width: u32,
    pub height: u32,
}

impl LoopModel {
    /// The camera is well formed, and the transform of the draw data is the
    /// view from the camera as it stands.
    pub open spec fn wf(self) -> bool {
        &&& self.camera.wf()
        &&& self.data.transform == self.camera.look_at()
    }

    /// The loop after one event: a bound key stops the loop or changes what
    /// is held, a resize changes the size, a request to close stops the loop,
    /// anything else changes nothing.
    pub open spec fn handle(self, event: Event) -> LoopModel {
        match event {
            Event::Key { key, pressed } => match binding(key) {
                Some(Binding::Quit) => LoopModel { phase: Phase::Stopped, ..self },
                Some(Binding::Move(direction)) => LoopModel {
                    input: self.input.with(direction, pressed),
                    ..self
                },
                None => self,
            },
            Event::Resized { width, height } => LoopModel { width, height, ..self },
            Event::CloseRequested => LoopModel { phase: Phase::Stopped, ..self },
            Event::Other => self,
        }
    }

    /// The loop after all of `events`, in order.
    pub open spec fn drain(self, events: Seq<Event>) -> LoopModel
        decreases events.len(),
    {
        if events.len() == 0 {
            self
        } else {
            self.drain(events.drop_last()).handle(events.last())
        }
    }

    /// The loop after the camera took its step for this frame: where a
    /// movement key is held, the camera advances and the transform follows.
    pub open spec fn moved(self) -> LoopModel {
        if self.input.any_held() {
            let camera = self.camera.advance(self.input);
            LoopModel {
                camera,
                data: DrawData { transform: camera.look_at(), ..self.data },
                ..self
            }
        } else {
            self
        }
    }

    /// The commands that render and show one frame of the loop as it stands:
    /// the new transform where the camera moved, then clear, draw, flush,
    /// present and cleanup.
    pub open spec fn submission(self) -> Seq<Command> {
        let transform = if self.input.any_held() {
            seq![Command::SetTransform(self.data.transform)]
        } else {
            Seq::<Command>::empty()
        };
        let depth = if self.data.depth {
            seq![Command::ClearDepth(FAR_DEPTH)]
        } else {
            Seq::<Command>::empty()
        };
        transform + seq![Command::ClearColor(background())] + depth + seq![
            Command::Draw(self.slice),
            Command::Flush,
            Command::Present { width: self.width, height: self.height },
            Command::Cleanup,
        ]
    }

    /// The loop after one iteration over `events`. A stopped loop stays as it
    /// is. A loop that an event stops takes no step of the camera.
    pub open spec fn after(self, events: Seq<Event>) -> LoopModel {
        if self.phase is Stopped {
            self
        } else if self.drain(events).phase is Stopped {
            self.drain(events)
        } else {
            self.drain(events).moved()
        }
    }

    /// The commands of one iteration over `events`: a resize for each resize
    /// event, in order, and then, unless the loop has stopped, one frame.
    pub open spec fn plan(self, events: Seq<Event>) -> Seq<Command> {
        if self.phase is Stopped {
            Seq::<Command>::empty()
        } else if self.drain(events).phase is Stopped {
            resizes(events)
        } else {
            resizes(events) + self.drain(events).moved().submission()
        }
    }
}

/// The resize commands that `events` ask for, in order.
pub open spec fn resizes(events: Seq<Event>) -> Seq<Command>
    decreases events.len(),
{
    if events.len() == 0 {
        Seq::<Command>::empty()
    } else {
        match events.last() {
            Event::Resized { width, height } => resizes(events.drop_last()).push(
                Command::Resize { width, height },
            ),
            _ => resizes(events.drop_last()),
        }
    }
}

/// Whether an event asks the loop to stop: the quit key, going down or up,
/// or a request to close the window.
pub open spec fn quits(event: Event) -> bool {
    event is CloseRequested || (event matches Event::Key { key, .. } && binding(key) == Some(
        Binding::Quit,
    ))
}

/// The size that the last resize among `events` asks for; the given size
/// where none does.
pub open spec fn last_size(events: Seq<Event>, width: u32, height: u32) -> (u32, u32)
    decreases events.len(),
{
    if events.len() == 0 {
        (width, height)
    } else {
        match events.last() {
            Event::Resized { width: w, height: h } => (w, h),
            _ => last_size(events.drop_last(), width, height),
        }
    }
}

/// Whether `plan` holds a command of the kind `what` at `at` and nowhere
/// else.
pub open spec fn only_at(plan: Seq<Command>, at: int, what: spec_fn(Command) -> bool) -> bool {
    &&& 0 <= at < plan.len()
    &&& forall|k: int| 0 <= k < plan.len() ==> (#[trigger] what(plan[k]) <==> k == at)
}

/// Taking in events never touches the camera, the draw data or the slice;
/// it leaves the size that the last resize asked for; and it stops the loop
/// exactly where the loop was stopped or one of the events quits.
pub proof fn lemma_drain(m: LoopModel, events: Seq<Event>)
    ensures
        m.drain(events).camera == m.camera,
        m.drain(events).data == m.data,
        m.drain(events).slice == m.slice,
        (m.drain(events).width, m.drain(events).height) == last_size(events, m.width, m.height),
        m.drain(events).phase is Stopped <==> (m.phase is Stopped || exists|i: int|
            0 <= i < events.len() && quits(#[trigger] events[i])),
    decreases events.len(),
{
    if events.len() > 0 {
        let earlier = events.drop_last();
        lemma_drain(m, earlier);
        if m.drain(earlier).phase is Stopped && m.phase is Running {
            let i = choose|i: int| 0 <= i < earlier.len() && quits(#[trigger] earlier[i]);
            assert(quits(events[i]));
        }
        if quits(events.last()) {
            assert(quits(events[events.len() - 1]));
        }
        if m.phase is Running && exists|i: int| 0 <= i < events.len() && quits(#[trigger] events[i]) {
            let i = choose|i: int| 0 <= i < events.len() && quits(#[trigger] events[i]);
            if i < earlier.len() {
                assert(quits(earlier[i]));
            }
        }
    }
}

/// Resize events give resize commands and nothing else.
pub proof fn lemma_resizes_are_resizes(events: Seq<Event>)
    ensures
        resizes(events).len() <= events.len(),
        forall|k: int| 0 <= k < resizes(events).len() ==> #[trigger] resizes(events)[k] is Resize,
    decreases events.len(),
{
    if events.len() > 0 {
        lemma_resizes_are_resizes(events.drop_last());
    }
}

/// The last resize command is the one that the last resize event asks for.
pub proof fn lemma_last_resize(events: Seq<Event>, width: u32, height: u32)
    ensures
        resizes(events).len() == 0 ==> last_size(events, width, height) == (width, height),
        resizes(events).len() > 0 ==> resizes(events).last() == (Command::Resize {
            width: last_size(events, width, height).0,
            height: last_size(events, width, height).1,
        }),
    decreases events.len(),
{
    if events.len() > 0 {
        lemma_last_resize(events.drop_last(), width, height);
    }
}

/// Whether an event is one that the loop ignores: a key that is bound to
/// nothing, or anything that is neither a key, a resize nor a request to
/// close.
pub open spec fn ignored(event: Event) -> bool {
    event is Other || (event matches Event::Key { key, .. } && binding(key) is None)
}

/// An ignored event is no error and no change: the loop after it is the loop
/// before it, and it asks for no command.
pub proof fn lemma_ignored_events_change_nothing(m: LoopModel, events: Seq<Event>, event: Event)
    requires
        ignored(event),
    ensures
        m.handle(event) == m,
        m.after(events.push(event)) == m.after(events),
        m.plan(events.push(event)) == m.plan(events),
{
    assert(events.push(event).drop_last() =~= events);
}

/// An iteration changes nothing of the draw data but its transform, and
/// leaves the slice alone; the transform stays the view from the camera.
pub proof fn lemma_only_the_transform_changes(m: LoopModel, events: Seq<Event>)
    requires
        m.wf(),
    ensures
        m.after(events).wf(),
        m.after(events).data.textured == m.data.textured,
        m.after(events).data.depth == m.data.depth,
        m.after(events).slice == m.slice,
        m.after(events).camera.distance == m.camera.distance,
        m.after(events).camera.sensitivity == m.camera.sensitivity,
{
    lemma_drain(m, events);
}

/// A quit among the events ends the loop before anything is drawn: the
/// iteration hands out the resizes and nothing else, the camera takes no
/// step, and the loop has stopped.
pub proof fn lemma_quit_draws_nothing(m: LoopModel, events: Seq<Event>, i: int)
    requires
        m.phase is Running,
        0 <= i < events.len(),
        quits(events[i]),
    ensures
        m.after(events).phase is Stopped,
        m.after(events).camera == m.camera,
        m.after(events).data == m.data,
        m.plan(events) == resizes(events),
        forall|k: int| 0 <= k < m.plan(events).len() ==> #[trigger] m.plan(events)[k] is Resize,
{
    lemma_drain(m, events);
    lemma_resizes_are_resizes(events);
}

/// A stopped loop stays stopped: further iterations change nothing and hand
/// out no command.
pub proof fn lemma_stopped_is_final(m: LoopModel, events: Seq<Event>)
    requires
        m.phase is Stopped,
    ensures
        m.after(events) == m,
        m.plan(events).len() == 0,
{
}

/// Where the clear of the colour target stands in the plan of an iteration
/// that renders: behind the resizes and the new transform.
pub open spec fn clear_at(m: LoopModel, events: Seq<Event>) -> int {
    resizes(events).len() + if m.drain(events).input.any_held() {
        1int
    } else {
        0
    }
}

/// Where the draw stands in the plan of an iteration that renders: behind
/// the clears.
pub open spec fn draw_at(m: LoopModel, events: Seq<Event>) -> int {
    clear_at(m, events) + if m.data.depth {
        2int
    } else {
        1
    }
}

/// Where the present stands in the plan of an iteration that renders: behind
/// the draw and the flush.
pub open spec fn present_at(m: LoopModel, events: Seq<Event>) -> int {
    draw_at(m, events) + 2
}

/// An iteration that no event stops renders exactly one frame: one clear of
/// the colour target, then one draw of the loop's slice, then one present,
/// and all resizes before them.
pub proof fn lemma_one_frame_per_iteration(m: LoopModel, events: Seq<Event>)
    requires
        m.phase is Running,
        forall|i: int| 0 <= i < events.len() ==> !quits(#[trigger] events[i]),
    ensures
        m.after(events).phase is Running,
        resizes(events).len() <= clear_at(m, events) < draw_at(m, events) < present_at(m, events)
            < m.plan(events).len(),
        only_at(m.plan(events), clear_at(m, events), |x: Command| x is ClearColor),
        only_at(m.plan(events), draw_at(m, events), |x: Command| x is Draw),
        only_at(m.plan(events), present_at(m, events), |x: Command| x is Present),
        m.plan(events)[clear_at(m, events)] == Command::ClearColor(background()),
        m.plan(events)[draw_at(m, events)] == Command::Draw(m.slice),
        m.plan(events).last() == Command::Cleanup,
{
    lemma_drain(m, events);
    lemma_resizes_are_resizes(events);
    let plan = m.plan(events);
    let n = resizes(events).len() as int;
    let c = clear_at(m, events);
    let d = draw_at(m, events);
    let p = present_at(m, events);
    assert(plan.len() == p + 2);
    assert forall|k: int| 0 <= k < plan.len() implies ((plan[k] is ClearColor <==> k == c) && (
    plan[k] is Draw <==> k == d) && (plan[k] is Present <==> k == p)) by {
        if k < n {
            assert(plan[k] == resizes(events)[k]);
        }
    }
    assert(only_at(plan, c, |x: Command| x is ClearColor));
    assert(only_at(plan, d, |x: Command| x is Draw));
    assert(only_at(plan, p, |x: Command| x is Present));
}

/// After a resize, no frame is shown at a stale size: where the last resize
/// among the events asks for a size, the window is given that size before
/// the frame is presented, no other resize follows, the frame is presented
/// at that size, and the loop keeps it.
pub proof fn lemma_frame_is_shown_at_the_new_size(m: LoopModel, events: Seq<Event>, i: int)
    requires
        m.phase is Running,
        forall|j: int| 0 <= j < events.len() ==> !quits(#[trigger] events[j]),
        0 <= i < events.len(),
        events[i] is Resized,
        forall|j: int| i < j < events.len() ==> !(#[trigger] events[j] is Resized),
    ensures
        m.after(events).width == events[i]->Resized_width,
        m.after(events).height == events[i]->Resized_height,
        0 < resizes(events).len() <= present_at(m, events) < m.plan(events).len(),
        m.plan(events)[resizes(events).len() - 1] == (Command::Resize {
            width: events[i]->Resized_width,
            height: events[i]->Resized_height,
        }),
        forall|k: int|
            resizes(events).len() <= k < m.plan(events).len() ==> !(
            #[trigger] m.plan(events)[k] is Resize),
        m.plan(events)[present_at(m, events)] == (Command::Present {
            width: events[i]->Resized_width,
            height: events[i]->Resized_height,
        }),
{
    lemma_drain(m, events);
    lemma_resizes_are_resizes(events);
    lemma_last_resize(events, m.width, m.height);
    lemma_last_size_is_last_resize(events, m.width, m.height, i);
    let plan = m.plan(events);
    let n = resizes(events).len() as int;
    assert(plan.len() == present_at(m, events) + 2);
    assert(plan[n - 1] == resizes(events).last());
}

/// Where a resize is the last one among the events, its size is the last
/// size, and there is a resize command.
proof fn lemma_last_size_is_last_resize(events: Seq<Event>, width: u32, height: u32, i: int)
    requires
        0 <= i < events.len(),
        events[i] is Resized,
        forall|j: int| i < j < events.len() ==> !(#[trigger] events[j] is Resized),
    ensures
        last_size(events, width, height) == (events[i]->Resized_width, events[i]->Resized_height),
        resizes(events).len() > 0,
    decreases events.len(),
{
    if i < events.len() - 1 {
        assert(!(events[events.len() - 1] is Resized));
        lemma_last_size_is_last_resize(events.drop_last(), width, height, i);
    }
}

/// The frame loop. It owns the input state, the camera and the draw data.
#[derive(Debug, Clone, Copy)]
pub struct FrameLoop {
    phase: Phase,
    input: InputState,
    camera: CameraState,
    data: DrawData,
    slice: DrawSlice,
    width: u32,
    height: u32,
}

impl View for FrameLoop {
    type V = LoopModel;

    closed spec fn view(&self) -> LoopModel {
        LoopModel {
            phase: self.phase,
            input: self.input,
            camera: self.camera@,
            data: self.data,
            slice: self.slice,
            width: self.width,
            height: self.height,
        }
    }
}

impl FrameLoop {
    #[verifier::type_invariant]
    spec fn inv(self) -> bool {
        self@.wf()
    }

    /// A running loop with no key held, that draws `slice` into a window of
    /// the given physical size.
    pub fn new(
        camera: CameraState,
        slice: DrawSlice,
        textured: bool,
        depth: bool,
        width: u32,
        height: u32,
    ) -> (r: FrameLoop)
        ensures
            r@ == (LoopModel {
                phase: Phase::Running,
                input: InputState { forward: false, left: false, back: false, right: false },
                camera: camera@,
                data: DrawData { textured, depth, transform: camera@.look_at() },
                slice,
                width,
                height,
            }),
            r@.wf(),
    {
        let transform = camera.look_at();
        FrameLoop {
            phase: Phase::Running,
            input: InputState::new(),
            camera,
            data: DrawData { textured, depth, transform },
            slice,
            width,
            height,
        }
    }

    /// Whether the loop still runs.
    pub fn is_running(&self) -> (r: bool)
        ensures
            r == (self@.phase is Running),
    {
        match self.phase {
            Phase::Running => true,
            Phase::Stopped => false,
        }
    }

    /// Which movement keys are held.
    pub fn input(&self) -> (r: InputState)
        ensures
            r == self@.input,
    {
        self.input
    }

    /// The camera as it stands.
    pub fn camera(&self) -> (r: CameraState)
        ensures
            r@ == self@.camera,
    {
        self.camera
    }

    /// The draw data as it stands. Its transform is the view from the camera.
    pub fn data(&self) -> (r: DrawData)
        ensures
            r == self@.data,
            r.transform == self@.camera.look_at(),
    {
        proof {
            use_type_invariant(self);
        }
        self.data
    }

    /// The physical size at which the next frame is rendered.
    pub fn viewport(&self) -> (r: (u32, u32))
        ensures
            r == (self@.width, self@.height),
    {
        (self.width, self.height)
    }

    /// Runs one iteration: takes in all of `events`, moves the camera, and
    /// returns the commands to perform, in order.
    pub fn frame(&mut self, events: &[Event]) -> (plan: Vec<Command>)
        ensures
            final(self)@ == old(self)@.after(events@),
            plan@ == old(self)@.plan(events@),
            final(self)@.wf(),
    {
        proof {
            use_type_invariant(&*self);
        }
        let mut plan: Vec<Command> = Vec::new();
        match self.phase {
            Phase::Stopped => {
                return plan;
            },
            Phase::Running => {},
        }
        let mut phase = self.phase;
        let mut input = self.input;
        let mut width = self.width;
        let mut height = self.height;
        let ghost start = self@;
        let mut i: usize = 0;
        while i < events.len()
            invariant
                0 <= i <= events.len(),
                start.drain(events@.take(i as int)) == (LoopModel {
                    phase,
                    input,
                    width,
                    height,
                    ..start
                }),
                plan@ == resizes(events@.take(i as int)),
            decreases events.len() - i,
        {
            proof {
                assert(events@.take(i + 1).drop_last() =~= events@.take(i as int));
            }
            match events[i] {
                Event::Key { key, pressed } => match binding(key) {
                    Some(Binding::Quit) => {
                        phase = Phase::Stopped;
                    },
                    Some(Binding::Move(direction)) => {
                        input.set(direction, pressed);
                    },
                    None => {},
                },
                Event::Resized { width: w, height: h } => {
                    width = w;
                    height = h;
                    plan.push(Command::Resize { width: w, height: h });
                },
                Event::CloseRequested => {
                    phase = Phase::Stopped;
                },
                Event::Other => {},
            }
            i += 1;
        }
        assert(events@.take(events.len() as int) =~= events@);
        let mut camera = self.camera;
        let mut data = self.data;
        match phase {
            Phase::Stopped => {},
            Phase::Running => {
                if input.any_held() {
                    camera.advance(&input);
                    data.transform = camera.look_at();
                    plan.push(Command::SetTransform(data.transform));
                }
                plan.push(Command::ClearColor(background()));
                if data.depth {
                    plan.push(Command::ClearDepth(FAR_DEPTH));
                }
                plan.push(Command::Draw(self.slice));
                plan.push(Command::Flush);
                plan.push(Command::Present { width, height });
                plan.push(Command::Cleanup);
            },
        }
        *self = FrameLoop { phase, input, camera, data, slice: self.slice, width, height };
        assert(plan@ =~= start.plan(events@));
        plan
    }
}

} // verus!
