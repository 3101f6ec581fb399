//! Limits that the renderer and the shaders it compiles agree on.

use vstd::prelude::*;

verus! {

/// How many materials a scene may hold. Shaders that index the material
/// table are compiled with this number as their `MATERIAL_COUNT`.
pub const MAX_MATERIALS: usize = 2048;

} // verus!
