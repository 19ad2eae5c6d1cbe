//! The whole per-tick update: growth of the three sprites, then the confirm
//! / backspace / typed-character handling of the input accumulator, with the
//! knockback on a correct answer.

use vstd::prelude::*;
use crate::buffer::{LineBuffer, spec_typed_chars};
use crate::params::{
    SCALE_RATE, HAND_SCALE_RATE, KNOCKBACK, HAND_KNOCKBACK, KNOCKBACK_THRESHOLD,
    LEFT_HAND_DISTANCE, RIGHT_HAND_DISTANCE, COORD_LIMIT, START_SCALE,
};
use crate::round::{DrawOutcome, spec_two_word_match, spec_word_one, spec_word_two, word_one, word_two};
use crate::transform::{
    Transform2, grow_enemy, grow_left_hand, grow_right_hand, knock_back_enemy, knock_back_hand,
    hand_pos_x_from_scale, hand_pos_y_from_scale, hand_position_derived, enemy_start_spec,
};

verus! {

/// Everything the per-tick logic reads and writes: the three sprite
/// transforms and the input buffer.
#[derive(Debug)]
pub struct GameState {
    pub enemy: Transform2,
    pub left_hand: Transform2,
    pub right_hand: Transform2,
    pub buffer: LineBuffer,
}

/// The discrete input of one tick: whether confirm and backspace were
/// pressed, and the queue of typed characters in arrival order.
#[derive(Debug)]
pub struct TickInput {
    pub confirm: bool,
    pub backspace: bool,
    pub chars: Vec<char>,
}

/// One scale component across a whole tick: growth by `rate`, then, on a hit,
/// the guarded shrink by `kb`. The guard inspects the grown horizontal scale
/// `guard0 + rate`.
pub open spec fn scale_after_tick(s0: int, guard0: int, rate: int, kb: int, hit: bool) -> int {
    if hit && guard0 + rate > KNOCKBACK_THRESHOLD {
        s0 + rate - kb
    } else {
        s0 + rate
    }
}

/// The buffer across a whole tick: a confirm press empties it, a backspace
/// then drops the last character, and the typed characters are appended in
/// arrival order.
pub open spec fn spec_buffer_after_tick(
    b: Seq<char>,
    confirm: bool,
    backspace: bool,
    cs: Seq<char>,
) -> Seq<char> {
    let after_confirm = if confirm {
        Seq::<char>::empty()
    } else {
        b
    };
    let after_backspace = if backspace && after_confirm.len() > 0 {
        after_confirm.drop_last()
    } else {
        after_confirm
    };
    spec_typed_chars(after_backspace, cs)
}

/// The transforms of `after` are those of `before` taken across one tick
/// whose confirm hit (a correct answer) is `hit`.
pub open spec fn transforms_after_tick(before: GameState, after: GameState, hit: bool) -> bool {
    &&& after.enemy.scale_x == scale_after_tick(
        before.enemy.scale_x as int,
        before.enemy.scale_x as int,
        SCALE_RATE as int,
        KNOCKBACK as int,
        hit,
    )
    &&& after.enemy.scale_y == scale_after_tick(
        before.enemy.scale_y as int,
        before.enemy.scale_x as int,
        SCALE_RATE as int,
        KNOCKBACK as int,
        hit,
    )
    &&& after.enemy.pos_x == before.enemy.pos_x
    &&& after.enemy.pos_y == before.enemy.pos_y
    &&& after.left_hand.scale_x == scale_after_tick(
        before.left_hand.scale_x as int,
        before.left_hand.scale_x as int,
        HAND_SCALE_RATE as int,
        HAND_KNOCKBACK as int,
        hit,
    )
    &&& after.left_hand.scale_y == scale_after_tick(
        before.left_hand.scale_y as int,
        before.left_hand.scale_x as int,
        HAND_SCALE_RATE as int,
        HAND_KNOCKBACK as int,
        hit,
    )
    &&& after.left_hand.pos_x == hand_pos_x_from_scale(
        LEFT_HAND_DISTANCE as int,
        before.left_hand.scale_x + HAND_SCALE_RATE,
    )
    &&& after.left_hand.pos_y == hand_pos_y_from_scale(before.left_hand.scale_y + HAND_SCALE_RATE)
    &&& after.right_hand.scale_x == scale_after_tick(
        before.right_hand.scale_x as int,
        before.right_hand.scale_x as int,
        HAND_SCALE_RATE as int,
        HAND_KNOCKBACK as int,
        hit,
    )
    &&& after.right_hand.scale_y == scale_after_tick(
        before.right_hand.scale_y as int,
        before.right_hand.scale_x as int,
        HAND_SCALE_RATE as int,
        HAND_KNOCKBACK as int,
        hit,
    )
    &&& after.right_hand.pos_x == hand_pos_x_from_scale(
        RIGHT_HAND_DISTANCE as int,
        before.right_hand.scale_x + HAND_SCALE_RATE,
    )
    &&& after.right_hand.pos_y == hand_pos_y_from_scale(before.right_hand.scale_y + HAND_SCALE_RATE)
}

impl GameState {
    /// Every scale component is small enough for the tick arithmetic.
    pub open spec fn scales_in_range(self) -> bool {
        &&& self.enemy.scales_in_range()
        &&& self.left_hand.scales_in_range()
        &&& self.right_hand.scales_in_range()
    }

    /// This tick's growth stays under the coordinate limit.
    pub open spec fn growth_fits(self) -> bool {
        &&& self.enemy.scale_x + SCALE_RATE <= COORD_LIMIT
        &&& self.enemy.scale_y + SCALE_RATE <= COORD_LIMIT
        &&& self.left_hand.scale_x + HAND_SCALE_RATE <= COORD_LIMIT
        &&& self.left_hand.scale_y + HAND_SCALE_RATE <= COORD_LIMIT
        &&& self.right_hand.scale_x + HAND_SCALE_RATE <= COORD_LIMIT
        &&& self.right_hand.scale_y + HAND_SCALE_RATE <= COORD_LIMIT
    }

    /// The state as first spawned: all sprites at unit scale, hands at the
    /// position their scale derives, buffer empty.
    pub fn new() -> (s: GameState)
        ensures
            s.enemy == enemy_start_spec(),
            s.left_hand.scale_x == START_SCALE,
            s.left_hand.scale_y == START_SCALE,
            hand_position_derived(s.left_hand, LEFT_HAND_DISTANCE as int),
            s.right_hand.scale_x == START_SCALE,
            s.right_hand.scale_y == START_SCALE,
            hand_position_derived(s.right_hand, RIGHT_HAND_DISTANCE as int),
            s.buffer@ == Seq::<char>::empty(),
            s.scales_in_range(),
            s.growth_fits(),
    {
        GameState {
            enemy: Transform2::enemy_start(),
            left_hand: Transform2::left_hand_start(),
            right_hand: Transform2::right_hand_start(),
            buffer: LineBuffer::new(),
        }
    }

    /// Decides whether the next tick's arithmetic fits, so an unverified
    /// host can test before calling a tick function.
    pub fn can_tick(&self) -> (r: bool)
        ensures
            r == (self.scales_in_range() && self.growth_fits()),
    {
        self.enemy.scale_x >= -COORD_LIMIT && self.enemy.scale_y >= -COORD_LIMIT
            && self.left_hand.scale_x >= -COORD_LIMIT && self.left_hand.scale_y >= -COORD_LIMIT
            && self.right_hand.scale_x >= -COORD_LIMIT && self.right_hand.scale_y >= -COORD_LIMIT
            && self.enemy.scale_x <= COORD_LIMIT - SCALE_RATE
            && self.enemy.scale_y <= COORD_LIMIT - SCALE_RATE
            && self.left_hand.scale_x <= COORD_LIMIT - HAND_SCALE_RATE
            && self.left_hand.scale_y <= COORD_LIMIT - HAND_SCALE_RATE
            && self.right_hand.scale_x <= COORD_LIMIT - HAND_SCALE_RATE
            && self.right_hand.scale_y <= COORD_LIMIT - HAND_SCALE_RATE
    }
}

/// One whole tick once the confirm-time match `hit` has been decided:
/// growth, then the confirm handling, backspace, and the typed characters.
fn tick_with_match(s: &mut GameState, input: &TickInput, hit: bool) -> (correct: bool)
    requires
        old(s).scales_in_range(),
        old(s).growth_fits(),
    ensures
        correct == (input.confirm && hit),
        transforms_after_tick(*old(s), *final(s), correct),
        final(s).buffer@ == spec_buffer_after_tick(
            old(s).buffer@,
            input.confirm,
            input.backspace,
            input.chars@,
        ),
{
    grow_enemy(&mut s.enemy);
    grow_left_hand(&mut s.left_hand);
    grow_right_hand(&mut s.right_hand);
    let mut correct = false;
    if input.confirm {
        if hit {
            knock_back_enemy(&mut s.enemy);
            knock_back_hand(&mut s.left_hand);
            knock_back_hand(&mut s.right_hand);
            correct = true;
        }
        s.buffer.clear();
    }
    if input.backspace {
        s.buffer.backspace();
    }
    let ghost base: Seq<char> = s.buffer@;
    let ghost frozen_enemy: Transform2 = s.enemy;
    let ghost frozen_left: Transform2 = s.left_hand;
    let ghost frozen_right: Transform2 = s.right_hand;
    let mut i: usize = 0;
    while i < input.chars.len()
        invariant
            i <= input.chars.len(),
            s.buffer@ == spec_typed_chars(base, input.chars@.take(i as int)),
            s.enemy == frozen_enemy,
            s.left_hand == frozen_left,
            s.right_hand == frozen_right,
        decreases input.chars.len() - i,
    {
        s.buffer.type_char(input.chars[i]);
        proof {
            assert(input.chars@.take(i + 1).drop_last() =~= input.chars@.take(i as int));
            assert(input.chars@.take(i + 1).last() == input.chars@[i as int]);
        }
        i = i + 1;
    }
    proof {
        assert(input.chars@.take(input.chars@.len() as int) =~= input.chars@);
    }
    correct
}

/// One tick of the single-word variant: the buffer must equal the given
/// target word exactly for the confirm to count.
pub fn tick_single(s: &mut GameState, input: &TickInput, target: &Vec<char>) -> (correct: bool)
    requires
        old(s).scales_in_range(),
        old(s).growth_fits(),
    ensures
        correct == (input.confirm && old(s).buffer@ == target@),
        transforms_after_tick(*old(s), *final(s), correct),
        final(s).buffer@ == spec_buffer_after_tick(
            old(s).buffer@,
            input.confirm,
            input.backspace,
            input.chars@,
        ),
{
    let hit = s.buffer.matches_word(target);
    tick_with_match(s, input, hit)
}

/// One tick of the two-word variant: the confirm-time draw outcome selects
/// which word is correct; a midpoint draw selects neither.
pub fn tick_two(s: &mut GameState, input: &TickInput, draw: DrawOutcome) -> (correct: bool)
    requires
        old(s).scales_in_range(),
        old(s).growth_fits(),
    ensures
        correct == (input.confirm && spec_two_word_match(
            old(s).buffer@,
            spec_word_one(),
            spec_word_two(),
            draw,
        )),
        transforms_after_tick(*old(s), *final(s), correct),
        final(s).buffer@ == spec_buffer_after_tick(
            old(s).buffer@,
            input.confirm,
            input.backspace,
            input.chars@,
        ),
{
    let hit = match draw {
        DrawOutcome::High => {
            let w = word_one();
            s.buffer.matches_word(&w)
        },
        DrawOutcome::Low => {
            let w = word_two();
            s.buffer.matches_word(&w)
        },
        DrawOutcome::Mid => false,
    };
    tick_with_match(s, input, hit)
}

} // verus!
