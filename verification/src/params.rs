//! Tuning constants of the game, in fixed-point units of 1/10_000
//! of a world unit.

use vstd::prelude::*;

verus! {

/// One world unit: the denominator of the fixed-point representation.
pub const UNIT: i64 = 10_000;

/// Per-tick growth of the enemy's scale: 0.005 world units.
pub const SCALE_RATE: i64 = 50;

/// Per-tick growth of a hand's scale: the enemy rate times the 1.5 hand
/// ratio, 0.0075 world units.
pub const HAND_SCALE_RATE: i64 = 75;

/// Amount subtracted from the enemy's scale on a correct answer: 1.0 world
/// units.
pub const KNOCKBACK: i64 = 10_000;

/// Amount subtracted from a hand's scale on a correct answer: the knockback
/// times the 1.5 hand ratio.
pub const HAND_KNOCKBACK: i64 = 15_000;

/// The shrink guard: knockback applies only while `scale_x` exceeds this
/// value. It equals the enemy knockback amount, not zero.
pub const KNOCKBACK_THRESHOLD: i64 = 10_000;

/// Horizontal placement multiplier of the left hand: `pos_x` is this times
/// the hand's `scale_x`.
pub const LEFT_HAND_DISTANCE: i64 = 32;

/// Horizontal placement multiplier of the right hand; negative, so the two
/// hands mirror each other.
pub const RIGHT_HAND_DISTANCE: i64 = -32;

/// Vertical base of the enemy sprite: -200 world units.
pub const ENEMY_BASE_Y: i64 = -2_000_000;

/// Vertical offset multiplier of a hand: `pos_y` is the enemy base plus this
/// times the hand's `scale_y`.
pub const HAND_DISPLACEMENT: i64 = 24;

/// Starting scale of the enemy and both hands: 1.0 world units.
pub const START_SCALE: i64 = 10_000;

/// Bound on scale magnitudes under which every per-tick computation stays
/// inside `i64`: 100 million world units.
pub const COORD_LIMIT: i64 = 1_000_000_000_000;

/// A scale component small enough that growth and position arithmetic cannot
/// overflow.
pub open spec fn scale_in_range(v: int) -> bool {
    -COORD_LIMIT <= v && v <= COORD_LIMIT
}

} // verus!
