//! The drag velocity: it decays geometrically by 99/100 each frame and
//! gathers the frame's drag offset.
use vstd::prelude::*;
use crate::vector::{abs, clamp_to, div_toward_zero, Vec3i, VELOCITY_LIMIT};

verus! {

/// Decay factor per frame, as `DECAY_NUM / DECAY_DEN`.
pub const DECAY_NUM: i64 = 99;

pub const DECAY_DEN: i64 = 100;

/// One component after a frame of decay, rounded toward zero.
pub open spec fn decay_component(c: int) -> int {
    div_toward_zero(c * DECAY_NUM, DECAY_DEN as int)
}

pub open spec fn decay_vec(v: Vec3i) -> Vec3i {
    Vec3i {
        x: decay_component(v.x as int) as i64,
        y: decay_component(v.y as int) as i64,
        z: decay_component(v.z as int) as i64,
    }
}

/// `v` after `n` frames without a drag offset.
pub open spec fn decayed(v: Vec3i, n: nat) -> Vec3i
    decreases n,
{
    if n == 0 {
        v
    } else {
        decay_vec(decayed(v, (n - 1) as nat))
    }
}

/// The velocity after a frame: decayed, plus the frame's offset, each
/// component held within `VELOCITY_LIMIT`.
pub open spec fn next_velocity(v: Vec3i, offset: Option<Vec3i>) -> Vec3i {
    let o = match offset {
        Some(o) => o,
        None => Vec3i { x: 0, y: 0, z: 0 },
    };
    Vec3i {
        x: clamp_to(decay_component(v.x as int) + o.x, VELOCITY_LIMIT as int) as i64,
        y: clamp_to(decay_component(v.y as int) + o.y, VELOCITY_LIMIT as int) as i64,
        z: clamp_to(decay_component(v.z as int) + o.z, VELOCITY_LIMIT as int) as i64,
    }
}

pub open spec fn pow(b: int, e: nat) -> int
    decreases e,
{
    if e == 0 {
        1
    } else {
        b * pow(b, (e - 1) as nat)
    }
}

proof fn lemma_decay_component_bounds(c: int)
    ensures
        abs(decay_component(c)) * 100 <= abs(c) * 99,
        abs(decay_component(c)) * 100 >= abs(c) * 99 - 99,
        abs(decay_component(c)) <= abs(c),
        c >= 0 ==> decay_component(c) >= 0,
        c <= 0 ==> decay_component(c) <= 0,
        c != 0 ==> abs(decay_component(c)) < abs(c),
{
    let m = abs(c);
    assert((m * 99) / 100 * 100 <= m * 99) by (nonlinear_arith)
        requires
            m >= 0,
    ;
    assert((m * 99) / 100 * 100 >= m * 99 - 99) by (nonlinear_arith)
        requires
            m >= 0,
    ;
    assert((m * 99) / 100 >= 0) by (nonlinear_arith)
        requires
            m >= 0,
    ;
    assert(m > 0 ==> (m * 99) / 100 < m) by (nonlinear_arith)
        requires
            m >= 0,
    ;
    if c < 0 {
        assert(c * 99 == -(m * 99));
    }
}

fn decay_and_add(c: i64, o: i64) -> (r: i64)
    requires
        abs(c as int) <= VELOCITY_LIMIT,
    ensures
        r == clamp_to(decay_component(c as int) + o, VELOCITY_LIMIT as int),
{
    proof {
        lemma_decay_component_bounds(c as int);
    }
    let m: i128 = if c >= 0 { c as i128 } else { -(c as i128) };
    let d: i128 = (m * (DECAY_NUM as i128)) / (DECAY_DEN as i128);
    let decayed: i128 = if c >= 0 { d } else { -d };
    proof {
        if c < 0 {
            assert((c as int) * 99 == -(m * 99));
        }
    }
    let sum: i128 = decayed + (o as i128);
    let limit = VELOCITY_LIMIT as i128;
    if sum > limit {
        VELOCITY_LIMIT
    } else if sum < -limit {
        -VELOCITY_LIMIT
    } else {
        sum as i64
    }
}

/// The velocity after a frame with drag offset `offset` (none: zero).
pub fn integrate(v: &Vec3i, offset: Option<Vec3i>) -> (r: Vec3i)
    requires
        v.within(VELOCITY_LIMIT as int),
    ensures
        r == next_velocity(*v, offset),
        r.within(VELOCITY_LIMIT as int),
{
    let o = match offset {
        Some(o) => o,
        None => Vec3i { x: 0, y: 0, z: 0 },
    };
    Vec3i { x: decay_and_add(v.x, o.x), y: decay_and_add(v.y, o.y), z: decay_and_add(v.z, o.z) }
}

/// A frame without a drag offset only decays the velocity.
pub proof fn lemma_no_offset_decays(v: Vec3i)
    requires
        v.within(VELOCITY_LIMIT as int),
    ensures
        next_velocity(v, None) == decay_vec(v),
        decay_vec(v).within(VELOCITY_LIMIT as int),
{
    lemma_decay_component_bounds(v.x as int);
    lemma_decay_component_bounds(v.y as int);
    lemma_decay_component_bounds(v.z as int);
}

proof fn lemma_decayed_component(c0: int, cs: Seq<int>, n: nat)
    requires
        cs.len() == n + 1,
        cs[0] == c0,
        forall|i: int| 0 <= i < n ==> #[trigger] cs[i + 1] == decay_component(cs[i]),
    ensures
        abs(cs[n as int]) * pow(100, n) <= abs(c0) * pow(99, n),
        abs(cs[n as int]) * pow(100, n) >= abs(c0) * pow(99, n) - n * pow(100, n),
        abs(cs[n as int]) <= abs(c0),
        c0 >= 0 ==> cs[n as int] >= 0,
        c0 <= 0 ==> cs[n as int] <= 0,
        abs(cs[n as int]) <= abs(c0) - n || cs[n as int] == 0,
    decreases n,
{
    if n > 0 {
        let m = (n - 1) as nat;
        lemma_decayed_component(c0, cs.take(n as int), m);
        assert(cs.take(n as int)[m as int] == cs[m as int]);
        let prev = cs[m as int];
        lemma_decay_component_bounds(prev);
        assert(cs[n as int] == decay_component(prev)) by {
            assert(cs[m as int + 1] == decay_component(cs[m as int]));
        }
        let a = abs(cs[n as int]);
        let p = abs(prev);
        let a0 = abs(c0);
        let hp = pow(100, m);
        let np = pow(99, m);
        assert(hp >= 0 && np >= 0) by {
            lemma_pow_nonneg(100, m);
            lemma_pow_nonneg(99, m);
        }
        assert(a * (100 * hp) <= a0 * (99 * np)) by (nonlinear_arith)
            requires
                a * 100 <= p * 99,
                p * hp <= a0 * np,
                hp >= 0,
                np >= 0,
                a >= 0,
        ;
        assert(a * (100 * hp) >= a0 * (99 * np) - n * (100 * hp)) by (nonlinear_arith)
            requires
                a * 100 >= p * 99 - 99,
                p * hp >= a0 * np - m * hp,
                n == m + 1,
                hp >= 0,
                np >= 0,
        ;
    }
}

proof fn lemma_pow_nonneg(b: int, e: nat)
    requires
        b >= 0,
    ensures
        pow(b, e) >= 0,
    decreases e,
{
    if e > 0 {
        lemma_pow_nonneg(b, (e - 1) as nat);
        assert(b * pow(b, (e - 1) as nat) >= 0) by (nonlinear_arith)
            requires
                b >= 0,
                pow(b, (e - 1) as nat) >= 0,
        ;
    }
}

/// The components of `v` over `n + 1` frames of decay.
pub open spec fn component_trace(v: Vec3i, axis: int, n: nat) -> Seq<int> {
    Seq::new(
        n + 1,
        |i: int|
            {
                let w = decayed(v, i as nat);
                if axis == 0 {
                    w.x as int
                } else if axis == 1 {
                    w.y as int
                } else {
                    w.z as int
                }
            },
    )
}

proof fn lemma_decayed_within(v: Vec3i, n: nat)
    requires
        v.within(VELOCITY_LIMIT as int),
    ensures
        decayed(v, n).within(VELOCITY_LIMIT as int),
    decreases n,
{
    if n > 0 {
        lemma_decayed_within(v, (n - 1) as nat);
        lemma_no_offset_decays(decayed(v, (n - 1) as nat));
    }
}

/// With no drag offset for `n` frames, each component of the velocity is
/// `|c0| * 99^n / 100^n` up to rounding: never above it, and below it by at
/// most one unit per frame. It keeps its sign (it never passes zero), never
/// grows, and loses at least one unit per frame until it reaches zero.
pub proof fn lemma_velocity_decay(v: Vec3i, n: nat)
    requires
        v.within(VELOCITY_LIMIT as int),
    ensures
        forall|axis: int|
            0 <= axis < 3 ==> {
                let c0 = #[trigger] component_trace(v, axis, n)[0];
                let cn = component_trace(v, axis, n)[n as int];
                &&& abs(cn) * pow(100, n) <= abs(c0) * pow(99, n)
                &&& abs(cn) * pow(100, n) >= abs(c0) * pow(99, n) - n * pow(100, n)
                &&& abs(cn) <= abs(c0)
                &&& c0 >= 0 ==> cn >= 0
                &&& c0 <= 0 ==> cn <= 0
                &&& n >= abs(c0) ==> cn == 0
            },
{
    assert forall|axis: int| 0 <= axis < 3 implies {
        let c0 = #[trigger] component_trace(v, axis, n)[0];
        let cn = component_trace(v, axis, n)[n as int];
        &&& abs(cn) * pow(100, n) <= abs(c0) * pow(99, n)
        &&& abs(cn) * pow(100, n) >= abs(c0) * pow(99, n) - n * pow(100, n)
        &&& abs(cn) <= abs(c0)
        &&& c0 >= 0 ==> cn >= 0
        &&& c0 <= 0 ==> cn <= 0
        &&& n >= abs(c0) ==> cn == 0
    } by {
        let cs = component_trace(v, axis, n);
        assert forall|i: int| 0 <= i < n implies #[trigger] cs[i + 1] == decay_component(cs[i]) by {
            lemma_decayed_within(v, i as nat);
            let w = decayed(v, i as nat);
            lemma_decay_component_bounds(w.x as int);
            lemma_decay_component_bounds(w.y as int);
            lemma_decay_component_bounds(w.z as int);
            assert(decayed(v, (i + 1) as nat) == decay_vec(w));
        }
        lemma_decayed_component(cs[0], cs, n);
    }
}

} // verus!
