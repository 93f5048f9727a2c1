use vstd::prelude::*;

use crate::vector3::Vector3;

verus! {

/// The earlier name of `Vector3`, kept for code written against it.
pub type Vec3 = Vector3;

} // verus!
