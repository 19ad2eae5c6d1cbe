//! The scale and position of one sprite, with the growth and knockback
//! updates that the tick applies to it.

use vstd::prelude::*;
use crate::params::{
    SCALE_RATE, HAND_SCALE_RATE, KNOCKBACK, HAND_KNOCKBACK, KNOCKBACK_THRESHOLD,
    LEFT_HAND_DISTANCE, RIGHT_HAND_DISTANCE, ENEMY_BASE_Y, HAND_DISPLACEMENT,
    START_SCALE, COORD_LIMIT, scale_in_range,
};

verus! {

/// Scale and position of one sprite, in fixed-point units of 1/10_000 of a
/// world unit.
#[derive(Clone, Copy, Debug, PartialEq, Eq, Structural)]
pub struct Transform2 {
    pub scale_x: i64,
    pub scale_y: i64,
    pub pos_x: i64,
    pub pos_y: i64,
}

/// Horizontal position a hand must have at a given scale.
pub open spec fn hand_pos_x_from_scale(distance: int, scale_x: int) -> int {
    distance * scale_x
}

/// Vertical position a hand must have at a given scale.
pub open spec fn hand_pos_y_from_scale(scale_y: int) -> int {
    ENEMY_BASE_Y + HAND_DISPLACEMENT * scale_y
}

/// The hand's position is the fixed affine function of its own scale; it is
/// never tracked independently.
pub open spec fn hand_position_derived(t: Transform2, distance: int) -> bool {
    &&& t.pos_x == hand_pos_x_from_scale(distance, t.scale_x as int)
    &&& t.pos_y == hand_pos_y_from_scale(t.scale_y as int)
}

/// One guarded shrink step on a single scale component: `guard_x` is the
/// horizontal scale the guard inspects, `s` the component being shrunk.
pub open spec fn knocked_scale(guard_x: int, s: int, kb: int) -> int {
    if guard_x > KNOCKBACK_THRESHOLD {
        s - kb
    } else {
        s
    }
}

/// Relation between a transform and its value after one guarded knockback of
/// amount `kb`: both scale axes shrink when the horizontal scale exceeds the
/// guard, and the position is left alone.
pub open spec fn knockback_applied(before: Transform2, after: Transform2, kb: int) -> bool {
    &&& after.scale_x == knocked_scale(before.scale_x as int, before.scale_x as int, kb)
    &&& after.scale_y == knocked_scale(before.scale_x as int, before.scale_y as int, kb)
    &&& after.pos_x == before.pos_x
    &&& after.pos_y == before.pos_y
}

/// Relation between the enemy transform and its value after one growth tick:
/// both scale axes grow by the enemy rate and the position is left alone.
pub open spec fn enemy_grown(before: Transform2, after: Transform2) -> bool {
    &&& after.scale_x == before.scale_x + SCALE_RATE
    &&& after.scale_y == before.scale_y + SCALE_RATE
    &&& after.pos_x == before.pos_x
    &&& after.pos_y == before.pos_y
}

/// Relation between a hand transform and its value after one growth tick:
/// both scale axes grow by the hand rate and the position is recomputed from
/// the new scale.
pub open spec fn hand_grown(before: Transform2, after: Transform2, distance: int) -> bool {
    &&& after.scale_x == before.scale_x + HAND_SCALE_RATE
    &&& after.scale_y == before.scale_y + HAND_SCALE_RATE
    &&& hand_position_derived(after, distance)
}

/// The enemy's starting transform: unit scale, centered horizontally at the
/// vertical base.
pub open spec fn enemy_start_spec() -> Transform2 {
    Transform2 { scale_x: START_SCALE, scale_y: START_SCALE, pos_x: 0, pos_y: ENEMY_BASE_Y }
}

impl Transform2 {
    /// Both scale components are small enough for the tick arithmetic.
    pub open spec fn scales_in_range(self) -> bool {
        scale_in_range(self.scale_x as int) && scale_in_range(self.scale_y as int)
    }

    pub fn new(scale_x: i64, scale_y: i64, pos_x: i64, pos_y: i64) -> (t: Transform2)
        ensures
            t == (Transform2 { scale_x, scale_y, pos_x, pos_y }),
    {
        Transform2 { scale_x, scale_y, pos_x, pos_y }
    }

    /// The enemy as first spawned.
    pub fn enemy_start() -> (t: Transform2)
        ensures
            t == enemy_start_spec(),
    {
        Transform2 { scale_x: START_SCALE, scale_y: START_SCALE, pos_x: 0, pos_y: ENEMY_BASE_Y }
    }

    /// The left hand as first spawned: unit scale, already at the position
    /// its scale derives.
    pub fn left_hand_start() -> (t: Transform2)
        ensures
            t.scale_x == START_SCALE,
            t.scale_y == START_SCALE,
            hand_position_derived(t, LEFT_HAND_DISTANCE as int),
    {
        Transform2 {
            scale_x: START_SCALE,
            scale_y: START_SCALE,
            pos_x: LEFT_HAND_DISTANCE * START_SCALE,
            pos_y: ENEMY_BASE_Y + HAND_DISPLACEMENT * START_SCALE,
        }
    }

    /// The right hand as first spawned, mirrored from the left.
    pub fn right_hand_start() -> (t: Transform2)
        ensures
            t.scale_x == START_SCALE,
            t.scale_y == START_SCALE,
            hand_position_derived(t, RIGHT_HAND_DISTANCE as int),
    {
        Transform2 {
            scale_x: START_SCALE,
            scale_y: START_SCALE,
            pos_x: RIGHT_HAND_DISTANCE * START_SCALE,
            pos_y: ENEMY_BASE_Y + HAND_DISPLACEMENT * START_SCALE,
        }
    }
}

/// One growth tick of the enemy: scale grows by the enemy rate, position
/// stays.
pub fn grow_enemy(t: &mut Transform2)
    requires
        old(t).scales_in_range(),
        old(t).scale_x + SCALE_RATE <= COORD_LIMIT,
        old(t).scale_y + SCALE_RATE <= COORD_LIMIT,
    ensures
        enemy_grown(*old(t), *final(t)),
        final(t).scales_in_range(),
{
    t.scale_x = t.scale_x + SCALE_RATE;
    t.scale_y = t.scale_y + SCALE_RATE;
}

/// One growth tick of the left hand: scale grows by the hand rate and the
/// position is recomputed from the new scale.
pub fn grow_left_hand(t: &mut Transform2)
    requires
        old(t).scales_in_range(),
        old(t).scale_x + HAND_SCALE_RATE <= COORD_LIMIT,
        old(t).scale_y + HAND_SCALE_RATE <= COORD_LIMIT,
    ensures
        hand_grown(*old(t), *final(t), LEFT_HAND_DISTANCE as int),
        final(t).scales_in_range(),
{
    t.scale_x = t.scale_x + HAND_SCALE_RATE;
    t.scale_y = t.scale_y + HAND_SCALE_RATE;
    t.pos_y = ENEMY_BASE_Y + HAND_DISPLACEMENT * t.scale_y;
    t.pos_x = LEFT_HAND_DISTANCE * t.scale_x;
}

/// One growth tick of the right hand, mirrored from the left.
pub fn grow_right_hand(t: &mut Transform2)
    requires
        old(t).scales_in_range(),
        old(t).scale_x + HAND_SCALE_RATE <= COORD_LIMIT,
        old(t).scale_y + HAND_SCALE_RATE <= COORD_LIMIT,
    ensures
        hand_grown(*old(t), *final(t), RIGHT_HAND_DISTANCE as int),
        final(t).scales_in_range(),
{
    t.scale_x = t.scale_x + HAND_SCALE_RATE;
    t.scale_y = t.scale_y + HAND_SCALE_RATE;
    t.pos_y = ENEMY_BASE_Y + HAND_DISPLACEMENT * t.scale_y;
    t.pos_x = RIGHT_HAND_DISTANCE * t.scale_x;
}

/// The knockback applied to the enemy on a correct answer; a transform at or
/// below the guard threshold is left unchanged.
pub fn knock_back_enemy(t: &mut Transform2)
    requires
        old(t).scales_in_range(),
    ensures
        knockback_applied(*old(t), *final(t), KNOCKBACK as int),
        old(t).scale_x <= KNOCKBACK_THRESHOLD ==> *final(t) == *old(t),
{
    if t.scale_x > KNOCKBACK_THRESHOLD {
        t.scale_x = t.scale_x - KNOCKBACK;
        t.scale_y = t.scale_y - KNOCKBACK;
    }
}

/// The knockback applied to a hand on a correct answer: the guard compares
/// against the same threshold as the enemy, but the amount subtracted is
/// scaled by the hand ratio.
pub fn knock_back_hand(t: &mut Transform2)
    requires
        old(t).scales_in_range(),
    ensures
        knockback_applied(*old(t), *final(t), HAND_KNOCKBACK as int),
        old(t).scale_x <= KNOCKBACK_THRESHOLD ==> *final(t) == *old(t),
{
    if t.scale_x > KNOCKBACK_THRESHOLD {
        t.scale_x = t.scale_x - HAND_KNOCKBACK;
        t.scale_y = t.scale_y - HAND_KNOCKBACK;
    }
}

} // verus!
