use knockback_game::buffer::LineBuffer;
use knockback_game::game::{GameState, TickInput, tick_single, tick_two};
use knockback_game::round::{classify_draw, word_one, word_two, DrawOutcome};
use knockback_game::transform::{
    grow_enemy, grow_left_hand, grow_right_hand, knock_back_enemy, knock_back_hand, Transform2,
};

fn no_input() -> TickInput {
    TickInput { confirm: false, backspace: false, chars: Vec::new() }
}

fn typing(chars: Vec<char>) -> TickInput {
    TickInput { confirm: false, backspace: false, chars }
}

fn confirm_press() -> TickInput {
    TickInput { confirm: true, backspace: false, chars: Vec::new() }
}

#[test]
fn buffer_round_trip() {
    let mut b = LineBuffer::new();
    b.type_char('a');
    b.type_char('b');
    b.type_char('c');
    assert_eq!(b.contents().as_slice(), ['a', 'b', 'c']);
    b.backspace();
    assert_eq!(b.contents().as_slice(), ['a', 'b']);
    b.clear();
    assert_eq!(b.contents().as_slice(), [] as [char; 0]);
    assert_eq!(b.len(), 0);
}

#[test]
fn backspace_on_empty_is_noop() {
    let mut b = LineBuffer::new();
    b.backspace();
    assert_eq!(b.len(), 0);
    b.type_char('x');
    b.backspace();
    b.backspace();
    assert_eq!(b.len(), 0);
}

#[test]
fn control_characters_are_ignored() {
    let mut b = LineBuffer::new();
    b.type_char('\n');
    b.type_char('\u{8}');
    b.type_char('\u{7f}');
    b.type_char('\u{9f}');
    assert_eq!(b.len(), 0);
    b.type_char('\u{a0}');
    b.type_char(' ');
    assert_eq!(b.len(), 2);
}

#[test]
fn exact_match_required() {
    let target = vec!['h', 'e', 'l', 'p'];
    let mut b = LineBuffer::new();
    b.type_char('h');
    b.type_char('e');
    b.type_char('l');
    assert!(!b.matches_word(&target));
    b.type_char('p');
    assert!(b.matches_word(&target));
    b.type_char('!');
    assert!(!b.matches_word(&target));
}

#[test]
fn growth_is_linear_without_confirms() {
    let mut s = GameState::new();
    let input = no_input();
    for _ in 0..10 {
        assert!(s.can_tick());
        let correct = tick_single(&mut s, &input, &vec!['h', 'e', 'l', 'p']);
        assert!(!correct);
    }
    // rate 0.005 from scale 1.0 over 10 ticks: 1.05, in 1/10_000 units
    assert_eq!(s.enemy.scale_x, 10_500);
    assert_eq!(s.enemy.scale_y, 10_500);
    // hands grow 1.5 times as fast
    assert_eq!(s.left_hand.scale_x, 10_750);
    assert_eq!(s.right_hand.scale_y, 10_750);
}

#[test]
fn hand_position_follows_scale_on_growth() {
    let mut t = Transform2::new(10_000, 10_000, 0, 0);
    grow_left_hand(&mut t);
    assert_eq!(t.scale_x, 10_075);
    assert_eq!(t.pos_x, 32 * 10_075);
    assert_eq!(t.pos_y, -2_000_000 + 24 * 10_075);

    let mut r = Transform2::new(20_000, 20_000, 7, 7);
    grow_right_hand(&mut r);
    assert_eq!(r.scale_x, 20_075);
    assert_eq!(r.pos_x, -32 * 20_075);
    assert_eq!(r.pos_y, -2_000_000 + 24 * 20_075);
}

#[test]
fn enemy_growth_keeps_position() {
    let mut t = Transform2::new(10_000, 10_000, 123, 456);
    grow_enemy(&mut t);
    assert_eq!(t.scale_x, 10_050);
    assert_eq!(t.scale_y, 10_050);
    assert_eq!(t.pos_x, 123);
    assert_eq!(t.pos_y, 456);
}

#[test]
fn shrink_guard_leaves_low_scale_unchanged() {
    // exactly at the threshold: the guard uses a strict comparison
    let mut t = Transform2::new(10_000, 10_000, 5, 6);
    knock_back_enemy(&mut t);
    assert_eq!(t, Transform2::new(10_000, 10_000, 5, 6));

    let mut h = Transform2::new(9_999, 9_999, 0, 0);
    knock_back_hand(&mut h);
    assert_eq!(h, Transform2::new(9_999, 9_999, 0, 0));
}

#[test]
fn shrink_fires_above_threshold() {
    let mut t = Transform2::new(10_001, 10_001, 5, 6);
    knock_back_enemy(&mut t);
    // enemy knockback is 1.0 = 10_000 units; position untouched
    assert_eq!(t, Transform2::new(1, 1, 5, 6));

    let mut h = Transform2::new(10_075, 10_075, 0, 0);
    knock_back_hand(&mut h);
    // hand knockback is 1.5 = 15_000 units, guarded only by the 1.0 threshold
    assert_eq!(h.scale_x, 10_075 - 15_000);
    assert_eq!(h.scale_y, 10_075 - 15_000);
}

#[test]
fn single_word_scenario() {
    let target = vec!['h', 'e', 'l', 'p'];
    let mut s = GameState::new();
    let input = no_input();
    for _ in 0..10 {
        let correct = tick_single(&mut s, &input, &target);
        assert!(!correct);
    }
    assert_eq!(s.enemy.scale_x, 10_500);

    let correct = tick_single(&mut s, &typing(vec!['h', 'e', 'l', 'p']), &target);
    assert!(!correct);
    assert_eq!(s.buffer.contents().as_slice(), ['h', 'e', 'l', 'p']);

    let correct = tick_single(&mut s, &confirm_press(), &target);
    assert!(correct);
    assert_eq!(s.buffer.len(), 0);
    // 12 growth ticks then one knockback: 10_000 + 12 * 50 - 10_000
    assert_eq!(s.enemy.scale_x, 600);
    // hands: 10_000 + 12 * 75 - 15_000
    assert_eq!(s.left_hand.scale_x, -4_100);
}

#[test]
fn partial_word_does_not_shrink() {
    let target = vec!['h', 'e', 'l', 'p'];
    let mut s = GameState::new();
    let correct = tick_single(&mut s, &typing(vec!['h', 'e', 'l']), &target);
    assert!(!correct);

    let correct = tick_single(&mut s, &confirm_press(), &target);
    assert!(!correct);
    // buffer cleared even on a mismatch
    assert_eq!(s.buffer.len(), 0);
    // two pure growth ticks, no knockback
    assert_eq!(s.enemy.scale_x, 10_100);
    assert_eq!(s.left_hand.scale_x, 10_150);
}

#[test]
fn correct_word_shrinks_exactly_once_per_confirm() {
    let target = vec!['h', 'i'];
    let mut s = GameState::new();
    tick_single(&mut s, &typing(vec!['h', 'i']), &target);
    let correct = tick_single(&mut s, &confirm_press(), &target);
    assert!(correct);
    // 2 growth ticks then a single knockback
    assert_eq!(s.enemy.scale_x, 10_000 + 2 * 50 - 10_000);

    // a second confirm with the now-empty buffer does nothing more
    let correct = tick_single(&mut s, &confirm_press(), &target);
    assert!(!correct);
    assert_eq!(s.enemy.scale_x, 10_000 + 3 * 50 - 10_000);
}

#[test]
fn two_word_low_draw_takes_second_word() {
    let mut s = GameState::new();
    tick_two(&mut s, &typing(vec!['s', 'a', 'n', 'c', 't', 'i']), DrawOutcome::Low);
    let correct = tick_two(&mut s, &confirm_press(), DrawOutcome::Low);
    assert!(correct);
    assert_eq!(s.buffer.len(), 0);
    assert_eq!(s.enemy.scale_x, 10_000 + 2 * 50 - 10_000);
}

#[test]
fn two_word_low_draw_rejects_first_word() {
    let mut s = GameState::new();
    tick_two(&mut s, &typing(vec!['d', 'r', 'a', 'c', 'o']), DrawOutcome::Low);
    let correct = tick_two(&mut s, &confirm_press(), DrawOutcome::Low);
    assert!(!correct);
    assert_eq!(s.buffer.len(), 0);
    assert_eq!(s.enemy.scale_x, 10_100);
}

#[test]
fn two_word_high_draw_takes_first_word() {
    let mut s = GameState::new();
    tick_two(&mut s, &typing(vec!['d', 'r', 'a', 'c', 'o']), DrawOutcome::High);
    let correct = tick_two(&mut s, &confirm_press(), DrawOutcome::High);
    assert!(correct);
}

#[test]
fn two_word_mid_draw_takes_neither_word() {
    let mut s = GameState::new();
    tick_two(&mut s, &typing(vec!['d', 'r', 'a', 'c', 'o']), DrawOutcome::Mid);
    let correct = tick_two(&mut s, &confirm_press(), DrawOutcome::Mid);
    assert!(!correct);

    tick_two(&mut s, &typing(vec!['s', 'a', 'n', 'c', 't', 'i']), DrawOutcome::Mid);
    let correct = tick_two(&mut s, &confirm_press(), DrawOutcome::Mid);
    assert!(!correct);
}

#[test]
fn draw_classification_boundaries() {
    assert_eq!(classify_draw(0), DrawOutcome::Low);
    assert_eq!(classify_draw(49), DrawOutcome::Low);
    assert_eq!(classify_draw(50), DrawOutcome::Mid);
    assert_eq!(classify_draw(51), DrawOutcome::High);
    assert_eq!(classify_draw(100), DrawOutcome::High);
}

#[test]
fn target_words_spell_out() {
    assert_eq!(word_one().as_slice(), ['d', 'r', 'a', 'c', 'o']);
    assert_eq!(word_two().as_slice(), ['s', 'a', 'n', 'c', 't', 'i']);
}

#[test]
fn confirm_and_backspace_and_typing_in_one_tick() {
    let target = vec!['a', 'b'];
    let mut s = GameState::new();
    tick_single(&mut s, &typing(vec!['a', 'b']), &target);
    // confirm first (clears), then backspace (no-op on empty), then typing
    let input = TickInput { confirm: true, backspace: true, chars: vec!['z'] };
    let correct = tick_single(&mut s, &input, &target);
    assert!(correct);
    assert_eq!(s.buffer.contents().as_slice(), ['z']);
}

#[test]
fn starting_state_matches_spawn() {
    let s = GameState::new();
    assert_eq!(s.enemy.scale_x, 10_000);
    assert_eq!(s.enemy.pos_x, 0);
    assert_eq!(s.enemy.pos_y, -2_000_000);
    assert_eq!(s.left_hand.pos_x, 32 * 10_000);
    assert_eq!(s.right_hand.pos_x, -32 * 10_000);
    assert_eq!(s.left_hand.pos_y, -2_000_000 + 24 * 10_000);
    assert_eq!(s.buffer.len(), 0);
    assert!(s.can_tick());
}
