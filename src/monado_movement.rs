//! Movement by shifting every tracking origin of the XR runtime.
use vstd::prelude::*;
use crate::vector::{Vec3i, POSITION_LIMIT};

verus! {

/// The new offset position of each tracking origin: every origin whose
/// offset could be read is shifted by `delta`; the others are skipped.
pub open spec fn shifted(offsets: Seq<Option<Vec3i>>, delta: Vec3i) -> Seq<Option<Vec3i>> {
    offsets.map_values(
        |o: Option<Vec3i>|
            match o {
                Some(p) => Some(
                    Vec3i {
                        x: (p.x + delta.x) as i64,
                        y: (p.y + delta.y) as i64,
                        z: (p.z + delta.z) as i64,
                    },
                ),
                None => None,
            },
    )
}

pub open spec fn offsets_in_range(offsets: Seq<Option<Vec3i>>) -> bool {
    forall|i: int|
        0 <= i < offsets.len() ==> match #[trigger] offsets[i] {
            Some(p) => p.within(POSITION_LIMIT as int),
            None => true,
        }
}

/// Shifts the play space: each readable origin offset (`None`: its read
/// failed) moves by `delta`, all of them together, so that the coordinate
/// frames of the origins stay in step.
pub fn apply_offset(offsets: &Vec<Option<Vec3i>>, delta: &Vec3i) -> (r: Vec<Option<Vec3i>>)
    requires
        offsets_in_range(offsets@),
        delta.within(POSITION_LIMIT as int),
    ensures
        r@ == shifted(offsets@, *delta),
{
    let mut out: Vec<Option<Vec3i>> = Vec::new();
    let mut i: usize = 0;
    while i < offsets.len()
        invariant
            i <= offsets@.len(),
            offsets_in_range(offsets@),
            delta.within(POSITION_LIMIT as int),
            out@ == shifted(offsets@.take(i as int), *delta),
        decreases offsets@.len() - i,
    {
        let next = match offsets[i] {
            Some(p) => Some(Vec3i { x: p.x + delta.x, y: p.y + delta.y, z: p.z + delta.z }),
            None => None,
        };
        out.push(next);
        proof {
            assert(offsets@.take(i + 1) == offsets@.take(i as int).push(offsets@[i as int]));
            assert(shifted(offsets@.take(i + 1), *delta) =~= shifted(
                offsets@.take(i as int),
                *delta,
            ).push(next));
        }
        i = i + 1;
    }
    proof {
        assert(offsets@.take(i as int) == offsets@);
    }
    out
}

} // verus!
