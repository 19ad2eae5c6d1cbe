//! General properties of the update logic, stated over the same spec
//! functions the executable contracts use and proved once for all inputs.

use vstd::prelude::*;
use crate::buffer::{spec_is_control_char, spec_typed_char};
use crate::game::{scale_after_tick, transforms_after_tick, GameState};
use crate::params::{
    HAND_SCALE_RATE, KNOCKBACK, KNOCKBACK_THRESHOLD, LEFT_HAND_DISTANCE, RIGHT_HAND_DISTANCE,
};
use crate::transform::{
    Transform2, hand_position_derived, hand_pos_x_from_scale, hand_pos_y_from_scale,
    knocked_scale, knockback_applied,
};

verus! {

/// Hand position is a pure function of hand scale: two hand transforms on
/// the same side whose scales agree sit at the same position, whenever each
/// satisfies the derived-position relation the growth update establishes.
pub proof fn lemma_hand_position_pure(a: Transform2, b: Transform2, distance: int)
    requires
        hand_position_derived(a, distance),
        hand_position_derived(b, distance),
        a.scale_x == b.scale_x,
        a.scale_y == b.scale_y,
    ensures
        a.pos_x == b.pos_x,
        a.pos_y == b.pos_y,
{
}

/// After any whole tick the position of each hand is exactly the affine
/// function of the scale the growth update gave it, on the growth path and
/// on the shrink path alike.
pub proof fn lemma_tick_hand_position(before: GameState, after: GameState, hit: bool)
    requires
        transforms_after_tick(before, after, hit),
    ensures
        after.left_hand.pos_x == hand_pos_x_from_scale(
            LEFT_HAND_DISTANCE as int,
            before.left_hand.scale_x + HAND_SCALE_RATE,
        ),
        after.left_hand.pos_y == hand_pos_y_from_scale(
            before.left_hand.scale_y + HAND_SCALE_RATE,
        ),
        after.right_hand.pos_x == hand_pos_x_from_scale(
            RIGHT_HAND_DISTANCE as int,
            before.right_hand.scale_x + HAND_SCALE_RATE,
        ),
        after.right_hand.pos_y == hand_pos_y_from_scale(
            before.right_hand.scale_y + HAND_SCALE_RATE,
        ),
        !hit ==> hand_position_derived(after.left_hand, LEFT_HAND_DISTANCE as int),
        !hit ==> hand_position_derived(after.right_hand, RIGHT_HAND_DISTANCE as int),
{
}

/// One scale component across `n` ticks in which no confirm was correct:
/// every tick is a pure growth step.
pub open spec fn scale_after_growth_ticks(s0: int, rate: int, n: nat) -> int
    decreases n,
{
    if n == 0 {
        s0
    } else {
        scale_after_tick(scale_after_growth_ticks(s0, rate, (n - 1) as nat), s0, rate, 0, false)
    }
}

/// Growth is monotonic and linear absent a correct answer: after `n` ticks
/// with no correct confirm, a scale component equals its start plus `n`
/// times its rate.
pub proof fn lemma_growth_monotonic(s0: int, rate: int, n: nat)
    ensures
        scale_after_growth_ticks(s0, rate, n) == s0 + n * rate,
    decreases n,
{
    if n > 0 {
        let n1 = (n - 1) as nat;
        lemma_growth_monotonic(s0, rate, n1);
        assert(n1 * rate + rate == (n1 + 1) * rate) by (nonlinear_arith);
        assert((n1 + 1) * rate == n * rate);
    } else {
        assert(n * rate == 0) by (nonlinear_arith)
            requires n == 0,
        ;
    }
}

/// Shrink guard, per component: when the grown horizontal scale is at or
/// below the threshold, a correct answer leaves the tick a pure growth step.
pub proof fn lemma_shrink_guard_tick(s0: int, guard0: int, rate: int, kb: int, hit: bool)
    requires
        guard0 + rate <= KNOCKBACK_THRESHOLD,
    ensures
        scale_after_tick(s0, guard0, rate, kb, hit) == s0 + rate,
{
}

/// Shrink guard, per transform: at or below the threshold a knockback of any
/// amount changes nothing at all.
pub proof fn lemma_shrink_guard_transform(before: Transform2, after: Transform2, kb: int)
    requires
        knockback_applied(before, after, kb),
        before.scale_x <= KNOCKBACK_THRESHOLD,
    ensures
        after == before,
{
}

/// Typing a printable character and then pressing backspace returns the
/// buffer to what it was; a control character never changes it at all.
pub proof fn lemma_type_then_backspace(b: Seq<char>, c: char)
    ensures
        !spec_is_control_char(c) ==> spec_typed_char(b, c).drop_last() == b,
        spec_is_control_char(c) ==> spec_typed_char(b, c) == b,
{
    if !spec_is_control_char(c) {
        assert(b.push(c).drop_last() =~= b);
    }
}

/// The enemy's scale never becomes negative through a knockback: the guard
/// threshold equals the enemy knockback amount, so a shrink that fires
/// leaves the horizontal scale strictly positive.
pub proof fn lemma_enemy_knockback_stays_positive(s: int)
    requires
        0 < s,
    ensures
        0 < knocked_scale(s, s, KNOCKBACK as int),
{
}

} // verus!
