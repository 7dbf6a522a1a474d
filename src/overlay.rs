//! Layout of the two host structures the zoom handler touches. Both are
//! undocumented; these offsets are the whole compatibility surface with a
//! given build of the host.

use vstd::prelude::*;

verus! {

/// Offset, in the level renderer, of the pointer to the player state.
pub const PLAYER_OFFSET: usize = 0x3F0;

/// Offset, in the player state, of the horizontal field of view (`f32`).
pub const FOV_X_OFFSET: usize = 0xF80;

/// Offset, in the player state, of the vertical field of view (`f32`).
pub const FOV_Y_OFFSET: usize = 0xF94;

} // verus!
