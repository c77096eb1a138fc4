//! Movement by capture: objects inside a large zone are captured while the
//! user is at rest and nudged along with the drag while moving.
use vstd::prelude::*;
use crate::object_set::{
    after_event, contains_id, ids_of, QueryEvent, ReactiveObjectSet, TrackedObject,
};
use crate::reparentable_movement::movement_of;
use crate::vector::{scale_by_time, Vec3i, VELOCITY_LIMIT};

verus! {

/// A notification of the zone.
pub enum ZoneEvent<S> {
    /// The zone captured an object.
    Capture(u64, S),
    /// An object entered the zone.
    Enter(u64, S),
    /// The zone released an object.
    Release(u64),
    /// An object left the zone.
    Leave(u64),
}

/// What the owner of the zone has to do in one frame.
pub struct ZonePlan {
    /// Objects to capture.
    pub capture: Vec<u64>,
    /// Objects to release.
    pub release: Vec<u64>,
    /// How far to move each captured object, in the velocity's reference
    /// frame.
    pub nudge: Vec3i,
}

/// The objects of `entered` that are not captured, in order.
pub open spec fn uncaptured<S>(entered: Seq<TrackedObject<S>>, captured: Seq<TrackedObject<S>>, n: int) -> Seq<u64>
    decreases n,
{
    if n <= 0 || n > entered.len() {
        Seq::empty()
    } else {
        let rest = uncaptured(entered, captured, n - 1);
        if contains_id(captured, entered[n - 1].id) {
            rest
        } else {
            rest.push(entered[n - 1].id)
        }
    }
}

/// The velocity that the zone acts on: small velocities count as rest.
pub open spec fn settled(v: Vec3i, rest_threshold_sq: u128) -> Vec3i {
    if v.length_sq() < rest_threshold_sq {
        Vec3i::spec_zero()
    } else {
        v
    }
}

/// The zone backend: tracks what entered the zone and what it captured.
pub struct ZoneMovement<S> {
    velocity: Vec3i,
    rest_threshold_sq: u128,
    captured: ReactiveObjectSet<S>,
    entered: ReactiveObjectSet<S>,
}

impl<S> ZoneMovement<S> {
    pub closed spec fn velocity_view(&self) -> Vec3i {
        self.velocity
    }

    pub closed spec fn threshold_view(&self) -> u128 {
        self.rest_threshold_sq
    }

    pub closed spec fn captured_view(&self) -> Seq<TrackedObject<S>> {
        self.captured.view()
    }

    pub closed spec fn entered_view(&self) -> Seq<TrackedObject<S>> {
        self.entered.view()
    }

    pub closed spec fn wf(&self) -> bool {
        &&& self.velocity.within(VELOCITY_LIMIT as int)
        &&& self.captured.wf()
        &&& self.entered.wf()
    }

    pub fn new(rest_threshold_sq: u128) -> (r: ZoneMovement<S>)
        ensures
            r.wf(),
            r.velocity_view() == Vec3i::spec_zero(),
            r.threshold_view() == rest_threshold_sq,
            r.captured_view() == Seq::<TrackedObject<S>>::empty(),
            r.entered_view() == Seq::<TrackedObject<S>>::empty(),
    {
        ZoneMovement {
            velocity: Vec3i::zero(),
            rest_threshold_sq,
            captured: ReactiveObjectSet::new(),
            entered: ReactiveObjectSet::new(),
        }
    }

    pub fn set_velocity(&mut self, velocity: Vec3i)
        requires
            old(self).wf(),
            velocity.within(VELOCITY_LIMIT as int),
        ensures
            final(self).wf(),
            final(self).velocity_view() == velocity,
            final(self).threshold_view() == old(self).threshold_view(),
            final(self).captured_view() == old(self).captured_view(),
            final(self).entered_view() == old(self).entered_view(),
    {
        self.velocity = velocity;
    }

    /// Applies one event of the zone to the entered and captured objects.
    pub fn update_zone(&mut self, event: ZoneEvent<S>)
        requires
            old(self).wf(),
        ensures
            final(self).wf(),
            final(self).velocity_view() == old(self).velocity_view(),
            final(self).threshold_view() == old(self).threshold_view(),
            match event {
                ZoneEvent::Capture(id, s) => {
                    &&& final(self).captured_view() == after_event(
                        old(self).captured_view(),
                        QueryEvent::NewMatch(id, s),
                    ).0
                    &&& final(self).entered_view() == old(self).entered_view()
                },
                ZoneEvent::Release(id) => {
                    &&& final(self).captured_view() == after_event(
                        old(self).captured_view(),
                        QueryEvent::MatchLost(id),
                    ).0
                    &&& final(self).entered_view() == old(self).entered_view()
                },
                ZoneEvent::Enter(id, s) => {
                    &&& final(self).entered_view() == after_event(
                        old(self).entered_view(),
                        QueryEvent::NewMatch(id, s),
                    ).0
                    &&& final(self).captured_view() == old(self).captured_view()
                },
                ZoneEvent::Leave(id) => {
                    &&& final(self).entered_view() == after_event(
                        old(self).entered_view(),
                        QueryEvent::MatchLost(id),
                    ).0
                    &&& final(self).captured_view() == old(self).captured_view()
                },
            },
    {
        match event {
            ZoneEvent::Capture(id, s) => {
                let _ = self.captured.handle_event(QueryEvent::NewMatch(id, s));
            },
            ZoneEvent::Release(id) => {
                let _ = self.captured.handle_event(QueryEvent::MatchLost(id));
            },
            ZoneEvent::Enter(id, s) => {
                let _ = self.entered.handle_event(QueryEvent::NewMatch(id, s));
            },
            ZoneEvent::Leave(id) => {
                let _ = self.entered.handle_event(QueryEvent::MatchLost(id));
            },
        }
    }

    /// One frame of `dt_us` microseconds: at rest, capture whatever entered
    /// and is not captured yet; while moving, release everything captured;
    /// either way, captured objects are nudged by `velocity * dt`.
    pub fn apply_offset(&mut self, dt_us: u32) -> (r: ZonePlan)
        requires
            old(self).wf(),
        ensures
            final(self).wf(),
            final(self).velocity_view() == settled(
                old(self).velocity_view(),
                old(self).threshold_view(),
            ),
            final(self).threshold_view() == old(self).threshold_view(),
            final(self).captured_view() == old(self).captured_view(),
            final(self).entered_view() == old(self).entered_view(),
            r.nudge == movement_of(final(self).velocity_view(), dt_us),
            final(self).velocity_view().is_zero() ==> {
                &&& r.capture@ == uncaptured(
                    old(self).entered_view(),
                    old(self).captured_view(),
                    old(self).entered_view().len() as int,
                )
                &&& r.release@.len() == 0
            },
            !final(self).velocity_view().is_zero() ==> {
                &&& r.capture@.len() == 0
                &&& r.release@ == ids_of(old(self).captured_view())
            },
    {
        if self.velocity.length_squared() < self.rest_threshold_sq {
            self.velocity = Vec3i::zero();
        }
        let mut capture: Vec<u64> = Vec::new();
        let mut release: Vec<u64> = Vec::new();
        if self.velocity.is_zero_vec() {
            let entered = self.entered.ids();
            let mut i: usize = 0;
            while i < entered.len()
                invariant
                    self.captured.wf(),
                    i <= entered@.len(),
                    entered@ == ids_of(self.entered.view()),
                    capture@ == uncaptured(self.entered.view(), self.captured.view(), i as int),
                decreases entered@.len() - i,
            {
                if !self.captured.contains(entered[i]) {
                    capture.push(entered[i]);
                }
                i = i + 1;
            }
        } else {
            release = self.captured.ids();
        }
        let nudge = scale_by_time(&self.velocity, dt_us);
        ZonePlan { capture, release, nudge }
    }
}

} // verus!
