//! The per-frame material clock: every shader material referenced by some
//! entity gets its elapsed-time uniform set to the clock's current value.

use vstd::prelude::*;

use crate::movement::Seconds;
use crate::scalar::Scalar;

verus! {

/// Whether one of the first `k` referenced handles is `j`.
pub open spec fn references(materials: Seq<usize>, k: int, j: int) -> bool {
    exists|i: int| 0 <= i < k && materials[i] == j
}

/// Writes `elapsed` into the time uniform of every material whose handle is
/// referenced. `material_times` is the asset store's time uniform per
/// registered material, indexed by handle; a handle with no registered
/// material is skipped, as an expected-absent case.
pub fn set_material_time(
    material_times: &mut Vec<Scalar>,
    materials: &Vec<usize>,
    elapsed: Seconds,
)
    ensures
        final(material_times)@.len() == old(material_times)@.len(),
        forall|j: int|
            0 <= j < old(material_times)@.len() ==> #[trigger] final(material_times)@[j] == if references(
                materials@,
                materials@.len() as int,
                j,
            ) {
                elapsed.0
            } else {
                old(material_times)@[j]
            },
{
    let ghost original: Seq<Scalar> = material_times@;
    let material_count = materials.len();
    let mut k: usize = 0;
    while k < material_count
        invariant
            0 <= k <= material_count,
            material_count == materials@.len(),
            material_times@.len() == original.len(),
            forall|j: int|
                0 <= j < original.len() ==> #[trigger] material_times@[j] == if references(
                    materials@,
                    k as int,
                    j,
                ) {
                    elapsed.0
                } else {
                    original[j]
                },
        decreases material_count - k,
    {
        let handle = materials[k];
        let ghost before: Seq<Scalar> = material_times@;
        if handle < material_times.len() {
            material_times[handle] = elapsed.0;
        }
        proof {
            assert forall|j: int| 0 <= j < original.len() implies #[trigger] material_times@[j]
                == if references(materials@, k as int + 1, j) {
                elapsed.0
            } else {
                original[j]
            } by {
                if references(materials@, k as int + 1, j) {
                    if j == handle as int {
                        if handle as int >= original.len() {
                            assert(false);
                        }
                    } else {
                        let i = choose|i: int|
                            0 <= i < k as int + 1 && materials@[i] == j;
                        assert(i < k as int);
                        assert(references(materials@, k as int, j));
                    }
                } else {
                    assert(!references(materials@, k as int, j));
                    assert(materials@[k as int] != j);
                }
            }
        }
        k = k + 1;
    }
}

} // verus!
