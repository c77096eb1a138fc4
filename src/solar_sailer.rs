//! The locomotion mode machine and the per-frame control loop.
use vstd::prelude::*;
use crate::input::{positions_in_range, Input, InputSample, Signifier, signifiers_for};
use crate::object_set::{
    attached_count, attached_handles, ids_unique, lemma_attached_count, ReactiveObjectSet,
    TrackedObject,
};
use crate::reparentable_movement::{fast_enough, movement_of, ReparentMovement};
use crate::vector::{scale_by_time, Vec3i, VELOCITY_LIMIT};
use crate::velocity::{integrate, next_velocity};

verus! {

/// Which movement backend receives the integrated velocity.
#[derive(Debug, Clone, Copy, PartialEq, Eq, Structural)]
pub enum Mode {
    /// Objects are parented to a moving anchor.
    Reparent,
    /// Every tracking origin of the XR runtime is shifted.
    MonadoOffset,
    /// Velocity is gathered but has no effect.
    Disabled,
}

/// The order in which mode switch requests step through the modes.
#[derive(Debug, Clone, Copy, PartialEq, Eq, Structural)]
pub enum ModeCycle {
    /// Disabled, then MonadoOffset, then Reparent, then Disabled again.
    Full,
    /// Back and forth between the two moving modes; Disabled leads to
    /// MonadoOffset.
    ActiveOnly,
}

pub open spec fn next_mode_of(mode: Mode, cycle: ModeCycle) -> Mode {
    match (cycle, mode) {
        (ModeCycle::Full, Mode::Disabled) => Mode::MonadoOffset,
        (ModeCycle::Full, Mode::MonadoOffset) => Mode::Reparent,
        (ModeCycle::Full, Mode::Reparent) => Mode::Disabled,
        (ModeCycle::ActiveOnly, Mode::Reparent) => Mode::MonadoOffset,
        (ModeCycle::ActiveOnly, Mode::MonadoOffset) => Mode::Reparent,
        (ModeCycle::ActiveOnly, Mode::Disabled) => Mode::MonadoOffset,
    }
}

/// How the user is to be moved in one frame.
#[derive(Debug, Clone, Copy, PartialEq, Eq, Structural)]
pub enum Movement {
    Still,
    /// Shift every tracking origin by this vector, given in the velocity's
    /// reference frame.
    ShiftOrigins(Vec3i),
    /// Move the anchor by this vector, given in the velocity's reference
    /// frame.
    MoveAnchor(Vec3i),
}

/// Everything the frame loop has to do in one frame, in this order.
#[derive(Debug, Clone, Copy, PartialEq, Eq, Structural)]
pub struct FramePlan {
    /// Unparent every attached object, then stop discovery.
    pub release_objects: bool,
    /// Start discovery; parent each object it reports.
    pub engage_objects: bool,
    pub movement: Movement,
}

pub open spec fn negated(v: Vec3i) -> Vec3i {
    Vec3i { x: -v.x as i64, y: -v.y as i64, z: -v.z as i64 }
}

/// The plan of a frame at velocity `v`.
pub open spec fn frame_plan(
    mode: Mode,
    monado_available: bool,
    engaged: bool,
    v: Vec3i,
    threshold_sq: u128,
    dt_us: u32,
) -> FramePlan {
    let fast = fast_enough(v, threshold_sq);
    FramePlan {
        release_objects: engaged && !fast,
        engage_objects: fast && mode is Reparent && !engaged,
        movement: if !fast {
            Movement::Still
        } else {
            match mode {
                Mode::MonadoOffset => if monado_available {
                    Movement::ShiftOrigins(negated(movement_of(v, dt_us)))
                } else {
                    Movement::Still
                },
                Mode::Reparent => Movement::MoveAnchor(movement_of(v, dt_us)),
                Mode::Disabled => Movement::Still,
            }
        },
    }
}

/// The drag-to-sail controller: input, velocity, and the mode machine that
/// hands the velocity to one movement backend.
pub struct SolarSailer {
    monado_available: bool,
    mode: Mode,
    cycle: ModeCycle,
    input: Input,
    reparent_movement: ReparentMovement,
    velocity: Vec3i,
    moving: bool,
    moving_threshold_sq: u128,
}

impl SolarSailer {
    pub closed spec fn mode_view(&self) -> Mode {
        self.mode
    }

    pub closed spec fn cycle_view(&self) -> ModeCycle {
        self.cycle
    }

    /// Whether the XR runtime could be reached at startup.
    pub closed spec fn monado_view(&self) -> bool {
        self.monado_available
    }

    pub closed spec fn input_view(&self) -> Input {
        self.input
    }

    pub closed spec fn velocity_view(&self) -> Vec3i {
        self.velocity
    }

    pub closed spec fn moving_view(&self) -> bool {
        self.moving
    }

    pub closed spec fn threshold_view(&self) -> u128 {
        self.moving_threshold_sq
    }

    /// Whether discovered objects are being parented to the anchor.
    pub closed spec fn engaged_view(&self) -> bool {
        self.reparent_movement.engaged_view()
    }

    pub closed spec fn anchor_view(&self) -> u64 {
        self.reparent_movement.anchor_view()
    }

    pub closed spec fn wf(&self) -> bool {
        &&& self.input.wf()
        &&& self.velocity.within(VELOCITY_LIMIT as int)
        &&& self.reparent_movement.threshold_view() == self.moving_threshold_sq
        &&& self.reparent_movement.engaged_view() ==> (self.mode is Reparent && self.moving)
    }

    /// Starts in MonadoOffset when the runtime is there, else in Reparent,
    /// at rest.
    pub fn new(
        input: Input,
        monado_available: bool,
        anchor_id: u64,
        moving_threshold_sq: u128,
        cycle: ModeCycle,
    ) -> (r: SolarSailer)
        requires
            input.wf(),
        ensures
            r.wf(),
            r.mode_view() == if monado_available {
                Mode::MonadoOffset
            } else {
                Mode::Reparent
            },
            r.cycle_view() == cycle,
            r.monado_view() == monado_available,
            r.input_view() == input,
            r.velocity_view() == Vec3i::spec_zero(),
            !r.moving_view(),
            !r.engaged_view(),
            r.anchor_view() == anchor_id,
            r.threshold_view() == moving_threshold_sq,
    {
        SolarSailer {
            mode: if monado_available {
                Mode::MonadoOffset
            } else {
                Mode::Reparent
            },
            monado_available,
            cycle,
            input,
            reparent_movement: ReparentMovement::new(anchor_id, moving_threshold_sq),
            velocity: Vec3i::zero(),
            moving: false,
            moving_threshold_sq,
        }
    }

    pub fn current_mode(&self) -> (r: Mode)
        ensures
            r == self.mode_view(),
    {
        self.mode
    }

    /// The mode that a switch request leads to.
    pub fn next_mode(&self) -> (r: Mode)
        ensures
            r == next_mode_of(self.mode_view(), self.cycle_view()),
    {
        match (self.cycle, self.mode) {
            (ModeCycle::Full, Mode::Disabled) => Mode::MonadoOffset,
            (ModeCycle::Full, Mode::MonadoOffset) => Mode::Reparent,
            (ModeCycle::Full, Mode::Reparent) => Mode::Disabled,
            (ModeCycle::ActiveOnly, Mode::Reparent) => Mode::MonadoOffset,
            (ModeCycle::ActiveOnly, Mode::MonadoOffset) => Mode::Reparent,
            (ModeCycle::ActiveOnly, Mode::Disabled) => Mode::MonadoOffset,
        }
    }

    pub fn velocity(&self) -> (r: Vec3i)
        ensures
            r == self.velocity_view(),
    {
        self.velocity
    }

    pub fn is_moving(&self) -> (r: bool)
        ensures
            r == self.moving_view(),
    {
        self.moving
    }

    pub fn is_engaged(&self) -> (r: bool)
        ensures
            r == self.engaged_view(),
    {
        self.reparent_movement.is_engaged()
    }

    pub fn anchor_id(&self) -> (r: u64)
        ensures
            r == self.anchor_view(),
    {
        self.reparent_movement.anchor_id()
    }

    pub fn input(&self) -> (r: &Input)
        ensures
            *r == self.input_view(),
    {
        &self.input
    }

    /// `next` keeps the configuration of `self`: the runtime flag, the mode
    /// cycle, the moving threshold and the anchor.
    pub open spec fn same_setup(self, next: SolarSailer) -> bool {
        &&& next.monado_view() == self.monado_view()
        &&& next.cycle_view() == self.cycle_view()
        &&& next.threshold_view() == self.threshold_view()
        &&& next.anchor_view() == self.anchor_view()
    }

    /// `next` is `self` after switching to `mode`, with the object set going
    /// from `before` to `after` and the handles `released` to be unparented.
    /// Leaving Reparent releases every attached object; leaving another mode
    /// releases nothing and leaves the set alone.
    pub open spec fn switched<H>(
        self,
        next: SolarSailer,
        mode: Mode,
        before: Seq<TrackedObject<H>>,
        after: Seq<TrackedObject<H>>,
        released: Seq<H>,
    ) -> bool {
        &&& if self.mode_view() is Reparent {
            &&& released == attached_handles(before)
            &&& after == Seq::<TrackedObject<H>>::empty()
        } else {
            &&& released == Seq::<H>::empty()
            &&& after == before
        }
        &&& next.mode_view() == mode
        &&& !next.engaged_view()
        &&& self.same_setup(next)
        &&& next.input_view() == self.input_view()
        &&& next.velocity_view() == self.velocity_view()
        &&& next.moving_view() == self.moving_view()
    }

    /// Switches to `mode`, leaving the old mode cleanly first: when leaving
    /// Reparent, every attached object of `objects` is taken out and its
    /// handle returned, one each, to be unparented (and discovery stopped)
    /// before the next frame is applied.
    pub fn switch_mode<H>(&mut self, mode: Mode, objects: &mut ReactiveObjectSet<H>) -> (released: Vec<H>)
        requires
            old(self).wf(),
            ids_unique(old(objects).view()),
        ensures
            final(self).wf(),
            ids_unique(final(objects).view()),
            old(self).switched(*final(self), mode, old(objects).view(), final(objects).view(), released@),
    {
        let released = match self.mode {
            Mode::Reparent => {
                self.reparent_movement.stopped_moving();
                objects.drain_attached()
            },
            Mode::MonadoOffset => Vec::new(),
            Mode::Disabled => Vec::new(),
        };
        self.mode = mode;
        released
    }

    /// Takes the input samples of a frame.
    pub fn handle_input(&mut self, samples: &Vec<InputSample>)
        requires
            old(self).wf(),
            positions_in_range(samples@),
        ensures
            final(self).wf(),
            match (old(self).input_view(), final(self).input_view()) {
                (Input::Grab(a), Input::Grab(b)) => a.handled(b, samples@),
                _ => false,
            },
            final(self).mode_view() == old(self).mode_view(),
            final(self).velocity_view() == old(self).velocity_view(),
            final(self).moving_view() == old(self).moving_view(),
            final(self).engaged_view() == old(self).engaged_view(),
            old(self).same_setup(*final(self)),
    {
        self.input.handle_input(samples);
    }

    /// The raw drag offset of this frame, to be shaped and handed to
    /// `update_velocity`; `None` stands for a zero offset.
    pub fn waft(&mut self) -> (r: Option<Vec3i>)
        requires
            old(self).wf(),
        ensures
            final(self).wf(),
            match (old(self).input_view(), final(self).input_view()) {
                (Input::Grab(a), Input::Grab(b)) => a.wafted(b, r),
                _ => false,
            },
            final(self).mode_view() == old(self).mode_view(),
            final(self).velocity_view() == old(self).velocity_view(),
            final(self).moving_view() == old(self).moving_view(),
            final(self).engaged_view() == old(self).engaged_view(),
            old(self).same_setup(*final(self)),
    {
        self.input.waft()
    }

    /// Decays the velocity by one frame and adds the shaped drag offset.
    pub fn update_velocity(&mut self, offset: Option<Vec3i>)
        requires
            old(self).wf(),
        ensures
            final(self).wf(),
            final(self).velocity_view() == next_velocity(old(self).velocity_view(), offset),
            final(self).mode_view() == old(self).mode_view(),
            final(self).input_view() == old(self).input_view(),
            final(self).moving_view() == old(self).moving_view(),
            final(self).engaged_view() == old(self).engaged_view(),
            old(self).same_setup(*final(self)),
    {
        self.velocity = integrate(&self.velocity, offset);
    }

    /// Decides the work of one frame of `dt_us` microseconds: detach when
    /// the velocity has fallen under the threshold, and when above it, hand
    /// the movement to the backend of the current mode.
    pub fn apply_offset(&mut self, dt_us: u32) -> (r: FramePlan)
        requires
            old(self).wf(),
        ensures
            final(self).wf(),
            r == frame_plan(
                old(self).mode_view(),
                old(self).monado_view(),
                old(self).engaged_view(),
                old(self).velocity_view(),
                old(self).threshold_view(),
                dt_us,
            ),
            final(self).moving_view() == fast_enough(
                old(self).velocity_view(),
                old(self).threshold_view(),
            ),
            final(self).engaged_view() == ((old(self).engaged_view() || r.engage_objects)
                && !r.release_objects),
            final(self).mode_view() == old(self).mode_view(),
            final(self).velocity_view() == old(self).velocity_view(),
            final(self).input_view() == old(self).input_view(),
            old(self).same_setup(*final(self)),
    {
        let fast = self.velocity.length_squared() > self.moving_threshold_sq;
        let mut release = false;
        if self.moving && !fast {
            release = match self.mode {
                Mode::Reparent => self.reparent_movement.stopped_moving(),
                Mode::MonadoOffset => false,
                Mode::Disabled => false,
            };
        }
        let mut engage = false;
        let mut movement = Movement::Still;
        if fast {
            match self.mode {
                Mode::MonadoOffset => {
                    if self.monado_available {
                        let m = scale_by_time(&self.velocity, dt_us);
                        movement = Movement::ShiftOrigins(Vec3i { x: -m.x, y: -m.y, z: -m.z });
                    }
                },
                Mode::Reparent => {
                    let step = self.reparent_movement.apply_offset(dt_us, &self.velocity);
                    engage = step.engage;
                    if let Some(m) = step.movement {
                        movement = Movement::MoveAnchor(m);
                    }
                },
                Mode::Disabled => {},
            }
        }
        self.moving = fast;
        FramePlan { release_objects: release, engage_objects: engage, movement }
    }

    /// The rings to draw around the input sources.
    pub fn update_signifiers(&self) -> (r: Vec<Signifier>)
        requires
            self.wf(),
        ensures
            match self.input_view() {
                Input::Grab(g) => r@ == signifiers_for(g.hovering_view(), g.actor_view(), self.mode_view()),
                Input::Pen(_) => false,
            },
    {
        self.input.update_signifiers(self.mode)
    }
}


/// Switching away from Reparent with `k` attached objects hands back
/// exactly `k` handles, one per attached object, to be unparented whatever
/// becomes of each attempt; the set is left empty and the next mode starts
/// with nothing engaged.
pub proof fn lemma_leaving_reparent_releases_all<H>(
    s: SolarSailer,
    next: SolarSailer,
    mode: Mode,
    before: Seq<TrackedObject<H>>,
    after: Seq<TrackedObject<H>>,
    released: Seq<H>,
)
    requires
        s.mode_view() is Reparent,
        s.switched(next, mode, before, after, released),
    ensures
        released.len() == attached_count(before),
        released == attached_handles(before),
        after.len() == 0,
        next.mode_view() == mode,
        !next.engaged_view(),
{
    lemma_attached_count(before);
}

/// Without the XR runtime, MonadoOffset does nothing in any frame: no
/// movement, nothing engaged or released.
pub proof fn lemma_unavailable_runtime_is_inert(s: SolarSailer, dt_us: u32)
    requires
        s.wf(),
        !s.monado_view(),
        s.mode_view() is MonadoOffset,
    ensures
        frame_plan(
            s.mode_view(),
            s.monado_view(),
            s.engaged_view(),
            s.velocity_view(),
            s.threshold_view(),
            dt_us,
        ) == (FramePlan { release_objects: false, engage_objects: false, movement: Movement::Still }),
{
}

} // verus!
