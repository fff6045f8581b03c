//! Collision-outcome resolution.
//!
//! For a player–hazard pair the physics collaborator reports as overlapping,
//! the outcome depends on the penetration depth and the relative size: the
//! bigger party swallows the smaller once the depth reaches twice the base
//! radius scaled by the smaller party's size — penetration proportional to
//! the smaller radius approximates full containment rather than a graze.

use vstd::prelude::*;
use crate::fx::{abs_of, fx_mul, fx_mul_s, i64_abs, lemma_fx_mul_s_bound};
use crate::scale::{SCALE_MAX, SCALE_MIN};
use crate::strategy::BASE_RADIUS;

verus! {

/// One overlapping player–hazard pair, as the physics engine reports it:
/// the hazard's identity and the deepest contact's signed distance
/// (negative when penetrating).
#[derive(Clone, Copy, Debug, PartialEq, Eq, Structural)]
pub struct Contact {
    pub obstacle: u64,
    pub penetration: i64,
}

/// What one contact resolves to.
#[derive(Clone, Copy, Debug, PartialEq, Eq, Structural)]
pub enum HitOutcome {
    /// The player's size dominates and the hazard is engulfed: it is
    /// consumed and grants its effect.
    Absorb,
    /// The hazard's size dominates and the player is engulfed: the run is
    /// over.
    PlayerDestroyed,
    /// The overlap is too shallow to swallow either party.
    Graze,
}

/// The penetration depth at which a party of the given size is swallowed:
/// twice the base radius, scaled by that size.
pub open spec fn swallow_threshold_s(size: int) -> int {
    fx_mul_s(2 * BASE_RADIUS as int, size)
}

/// The outcome for the given sizes (the canonical `scale.x` of each party)
/// and the contact's signed distance.
pub open spec fn resolve_hit_s(player_size: int, hazard_size: int, penetration: int) -> HitOutcome {
    if player_size >= hazard_size {
        if abs_of(penetration) >= swallow_threshold_s(hazard_size) {
            HitOutcome::Absorb
        } else {
            HitOutcome::Graze
        }
    } else {
        if abs_of(penetration) >= swallow_threshold_s(player_size) {
            HitOutcome::PlayerDestroyed
        } else {
            HitOutcome::Graze
        }
    }
}

/// Resolve one reported contact. The absorb test is boundary-inclusive: a
/// depth of exactly twice the base radius times the hazard's size absorbs.
pub fn resolve_hit(player_size: i64, hazard_size: i64, penetration: i64) -> (r: HitOutcome)
    requires
        SCALE_MIN <= player_size <= SCALE_MAX,
        SCALE_MIN <= hazard_size <= SCALE_MAX,
    ensures
        r == resolve_hit_s(player_size as int, hazard_size as int, penetration as int),
        (r == HitOutcome::Absorb) <==> (player_size >= hazard_size && abs_of(penetration as int)
            >= swallow_threshold_s(hazard_size as int)),
        (r == HitOutcome::PlayerDestroyed) <==> (hazard_size > player_size && abs_of(
            penetration as int,
        ) >= swallow_threshold_s(player_size as int)),
{
    let depth: u64 = i64_abs(penetration);
    proof {
        lemma_fx_mul_s_bound(2 * BASE_RADIUS as int, player_size as int, 64000, SCALE_MAX as int);
        lemma_fx_mul_s_bound(2 * BASE_RADIUS as int, hazard_size as int, 64000, SCALE_MAX as int);
    }
    if player_size >= hazard_size {
        let threshold: i64 = fx_mul(2 * BASE_RADIUS, hazard_size);
        if depth >= threshold as u64 {
            HitOutcome::Absorb
        } else {
            HitOutcome::Graze
        }
    } else {
        let threshold: i64 = fx_mul(2 * BASE_RADIUS, player_size);
        if depth >= threshold as u64 {
            HitOutcome::PlayerDestroyed
        } else {
            HitOutcome::Graze
        }
    }
}

} // verus!
