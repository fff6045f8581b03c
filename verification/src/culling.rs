//! Lifecycle view-culling: the rear half-plane test.
//!
//! An off-screen entity is "left behind" when the angle between its offset
//! from the viewpoint and the viewpoint's heading is a quarter turn or more
//! either way. That band is exactly the closed rear half-plane, so the test
//! is the sign of a dot product: no trigonometry and no approximation. A
//! stationary viewpoint (zero heading) or an entity exactly at the
//! viewpoint culls nothing.

use vstd::prelude::*;
use crate::vec2::Vec2Fx;

verus! {

/// Whether an entity at `entity_pos` lies in the closed rear half-plane of
/// a viewpoint at `cam_pos` heading along `cam_vel`.
pub open spec fn behind_s(entity_pos: Vec2Fx, cam_pos: Vec2Fx, cam_vel: Vec2Fx) -> bool {
    let dir = cam_vel.normalize_s();
    let diff = Vec2Fx {
        x: (entity_pos.x - cam_pos.x) as i64,
        y: (entity_pos.y - cam_pos.y) as i64,
    };
    let offset = diff.normalize_s();
    !dir.is_zero() && !offset.is_zero() && offset.dot_s(dir) <= 0
}

/// The rear half-plane test on world positions and the viewpoint velocity.
pub fn behind(entity_pos: Vec2Fx, cam_pos: Vec2Fx, cam_vel: Vec2Fx) -> (r: bool)
    requires
        entity_pos.in_world(),
        cam_pos.in_world(),
        cam_vel.len_safe(),
    ensures
        r == behind_s(entity_pos, cam_pos, cam_vel),
{
    let dir: Vec2Fx = cam_vel.normalize_or_zero();
    let diff: Vec2Fx = entity_pos.sub_v(cam_pos);
    let offset: Vec2Fx = diff.normalize_or_zero();
    if dir.x == 0 && dir.y == 0 {
        false
    } else if offset.x == 0 && offset.y == 0 {
        false
    } else {
        offset.dot_unit(dir) <= 0
    }
}

} // verus!
