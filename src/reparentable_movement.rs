//! Movement by reparenting: discovered objects are attached to a moving
//! anchor while the user drags, and detached when the drag ends.
use vstd::prelude::*;
use crate::vector::{scale_by_time, scaled_by_time, Vec3i, VELOCITY_LIMIT};

verus! {

/// What the owner of the anchor has to do in one frame.
#[derive(Debug, Clone, Copy, PartialEq, Eq, Structural)]
pub struct ReparentStep {
    /// Start discovering reparentable objects and parenting them to the
    /// anchor.
    pub engage: bool,
    /// How far to move the anchor, in the velocity's reference frame.
    pub movement: Option<Vec3i>,
}

/// The backend that moves an exported anchor and keeps the discovered
/// objects parented to it while the user drags.
pub struct ReparentMovement {
    anchor_id: u64,
    moving_threshold_sq: u128,
    engaged: bool,
}

/// Whether a velocity counts as moving.
pub open spec fn fast_enough(v: Vec3i, threshold_sq: u128) -> bool {
    v.length_sq() > threshold_sq
}

pub open spec fn movement_of(v: Vec3i, dt_us: u32) -> Vec3i {
    let d = scaled_by_time(v, dt_us as int);
    Vec3i { x: d.0 as i64, y: d.1 as i64, z: d.2 as i64 }
}

impl ReparentMovement {
    /// Identity of the anchor, as exported to the object registry.
    pub closed spec fn anchor_view(&self) -> u64 {
        self.anchor_id
    }

    pub closed spec fn threshold_view(&self) -> u128 {
        self.moving_threshold_sq
    }

    /// Whether discovered objects are being parented to the anchor.
    pub closed spec fn engaged_view(&self) -> bool {
        self.engaged
    }

    /// Starts idle, with nothing parented.
    pub fn new(anchor_id: u64, moving_threshold_sq: u128) -> (r: ReparentMovement)
        ensures
            r.anchor_view() == anchor_id,
            r.threshold_view() == moving_threshold_sq,
            !r.engaged_view(),
    {
        ReparentMovement { anchor_id, moving_threshold_sq, engaged: false }
    }

    pub fn anchor_id(&self) -> (r: u64)
        ensures
            r == self.anchor_view(),
    {
        self.anchor_id
    }

    pub fn is_engaged(&self) -> (r: bool)
        ensures
            r == self.engaged_view(),
    {
        self.engaged
    }

    /// One frame at `velocity`: below the threshold nothing happens;
    /// otherwise the backend engages if it was idle and the anchor moves by
    /// `velocity * dt`.
    pub fn apply_offset(&mut self, dt_us: u32, velocity: &Vec3i) -> (r: ReparentStep)
        requires
            velocity.within(VELOCITY_LIMIT as int),
        ensures
            final(self).anchor_view() == old(self).anchor_view(),
            final(self).threshold_view() == old(self).threshold_view(),
            fast_enough(*velocity, old(self).threshold_view()) ==> {
                &&& final(self).engaged_view()
                &&& r == (ReparentStep {
                    engage: !old(self).engaged_view(),
                    movement: Some(movement_of(*velocity, dt_us)),
                })
            },
            !fast_enough(*velocity, old(self).threshold_view()) ==> {
                &&& final(self).engaged_view() == old(self).engaged_view()
                &&& r == (ReparentStep { engage: false, movement: None })
            },
    {
        if velocity.length_squared() <= self.moving_threshold_sq {
            return ReparentStep { engage: false, movement: None };
        }
        let engage = !self.engaged;
        self.engaged = true;
        ReparentStep { engage, movement: Some(scale_by_time(velocity, dt_us)) }
    }

    /// Stops parenting; returns whether it was engaged, in which case every
    /// attached object has to be unparented and discovery stopped.
    pub fn stopped_moving(&mut self) -> (r: bool)
        ensures
            r == old(self).engaged_view(),
            !final(self).engaged_view(),
            final(self).anchor_view() == old(self).anchor_view(),
            final(self).threshold_view() == old(self).threshold_view(),
    {
        let was = self.engaged;
        self.engaged = false;
        was
    }
}

} // verus!
