//! Integer three-vectors: positions in micrometres, velocities in
//! micrometres per second, durations in microseconds.
use vstd::prelude::*;

verus! {

/// Bound on each coordinate of a tracked position, in micrometres.
pub const POSITION_LIMIT: i64 = 1_000_000_000_000_000_000;

/// Bound on each component of a velocity, in micrometres per second.
pub const VELOCITY_LIMIT: i64 = 1_000_000_000_000_000;

/// Bound on each component of a distance covered in one step, in
/// micrometres: the largest velocity over the longest step.
pub const MOVEMENT_LIMIT: i64 = 4_294_967_295_000_000_000;

/// Microseconds in one second.
pub const MICROS_PER_SECOND: u32 = 1_000_000;

/// A vector with one signed integer per axis.
#[derive(Debug, Clone, Copy, PartialEq, Eq, Structural)]
pub struct Vec3i {
    pub x: i64,
    pub y: i64,
    pub z: i64,
}

/// `num / den` rounded toward zero, for a positive `den`.
pub open spec fn div_toward_zero(num: int, den: int) -> int
    recommends
        den > 0,
{
    if num >= 0 {
        num / den
    } else {
        -((-num) / den)
    }
}

/// `c` held to the closed range `[-limit, limit]`.
pub open spec fn clamp_to(c: int, limit: int) -> int {
    if c > limit {
        limit
    } else if c < -limit {
        -limit
    } else {
        c
    }
}

/// The absolute value of `c`.
pub open spec fn abs(c: int) -> int {
    if c >= 0 {
        c
    } else {
        -c
    }
}

impl Vec3i {
    pub open spec fn within(self, limit: int) -> bool {
        &&& abs(self.x as int) <= limit
        &&& abs(self.y as int) <= limit
        &&& abs(self.z as int) <= limit
    }

    pub open spec fn is_zero(self) -> bool {
        self.x == 0 && self.y == 0 && self.z == 0
    }

    /// The squared Euclidean length.
    pub open spec fn length_sq(self) -> int {
        self.x * self.x + self.y * self.y + self.z * self.z
    }

    pub open spec fn spec_zero() -> Vec3i {
        Vec3i { x: 0, y: 0, z: 0 }
    }

    pub fn zero() -> (r: Vec3i)
        ensures
            r == Vec3i::spec_zero(),
    {
        Vec3i { x: 0, y: 0, z: 0 }
    }

    pub fn new(x: i64, y: i64, z: i64) -> (r: Vec3i)
        ensures
            r.x == x && r.y == y && r.z == z,
    {
        Vec3i { x, y, z }
    }

    /// Component-wise `self - o`.
    pub fn sub(&self, o: &Vec3i) -> (r: Vec3i)
        requires
            self.within(POSITION_LIMIT as int),
            o.within(POSITION_LIMIT as int),
        ensures
            r.x == self.x - o.x,
            r.y == self.y - o.y,
            r.z == self.z - o.z,
    {
        Vec3i { x: self.x - o.x, y: self.y - o.y, z: self.z - o.z }
    }

    /// Whether every component is zero.
    pub fn is_zero_vec(&self) -> (r: bool)
        ensures
            r == self.is_zero(),
    {
        self.x == 0 && self.y == 0 && self.z == 0
    }

    /// The squared Euclidean length, exact.
    pub fn length_squared(&self) -> (r: u128)
        ensures
            r == self.length_sq(),
    {
        let x = self.x as i128;
        let y = self.y as i128;
        let z = self.z as i128;
        assert(x * x <= 0x4000_0000_0000_0000_0000_0000_0000_0000) by (nonlinear_arith)
            requires
                -0x8000_0000_0000_0000 <= x < 0x8000_0000_0000_0000,
        ;
        assert(y * y <= 0x4000_0000_0000_0000_0000_0000_0000_0000) by (nonlinear_arith)
            requires
                -0x8000_0000_0000_0000 <= y < 0x8000_0000_0000_0000,
        ;
        assert(z * z <= 0x4000_0000_0000_0000_0000_0000_0000_0000) by (nonlinear_arith)
            requires
                -0x8000_0000_0000_0000 <= z < 0x8000_0000_0000_0000,
        ;
        assert(0 <= x * x && 0 <= y * y && 0 <= z * z) by (nonlinear_arith);
        let xx = (x * x) as u128;
        let yy = (y * y) as u128;
        let zz = (z * z) as u128;
        xx + yy + zz
    }
}

/// One velocity component scaled by a duration: `c * dt_us / 10^6`,
/// rounded toward zero.
pub open spec fn scaled_component(c: int, dt_us: int) -> int {
    div_toward_zero(c * dt_us, MICROS_PER_SECOND as int)
}

/// The distance covered in `dt_us` microseconds at velocity `v`.
pub open spec fn scaled_by_time(v: Vec3i, dt_us: int) -> (int, int, int) {
    (scaled_component(v.x as int, dt_us), scaled_component(v.y as int, dt_us), scaled_component(
        v.z as int,
        dt_us,
    ))
}

fn scale_component(c: i64, dt_us: u32) -> (r: i64)
    requires
        abs(c as int) <= VELOCITY_LIMIT,
    ensures
        r == scaled_component(c as int, dt_us as int),
        abs(r as int) <= MOVEMENT_LIMIT,
{
    let m: u128 = if c >= 0 { c as u128 } else { (-(c as i128)) as u128 };
    assert(m * (dt_us as int) <= 1_000_000_000_000_000 * 0xFFFF_FFFF) by (nonlinear_arith)
        requires
            m <= 1_000_000_000_000_000,
            dt_us <= 0xFFFF_FFFF,
            0 <= dt_us,
    ;
    let p = m * (dt_us as u128);
    let q = p / (MICROS_PER_SECOND as u128);
    assert(q <= 1_000_000_000_000_000 * 0xFFFF_FFFF / 1_000_000);
    assert((c as int) * (dt_us as int) == if c >= 0 { m * dt_us } else { -(m * dt_us) })
        by (nonlinear_arith)
        requires
            m == abs(c as int),
    ;
    if c >= 0 {
        q as i64
    } else {
        -(q as i64)
    }
}

/// The distance covered in `dt_us` microseconds at velocity `v`.
pub fn scale_by_time(v: &Vec3i, dt_us: u32) -> (r: Vec3i)
    requires
        v.within(VELOCITY_LIMIT as int),
    ensures
        (r.x as int, r.y as int, r.z as int) == scaled_by_time(*v, dt_us as int),
        r.within(MOVEMENT_LIMIT as int),
{
    Vec3i {
        x: scale_component(v.x, dt_us),
        y: scale_component(v.y, dt_us),
        z: scale_component(v.z, dt_us),
    }
}

} // verus!
