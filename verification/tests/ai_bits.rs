use lib::ai::{reaction_delay_steps, wrong_escape_verb, DelayBuffer, EscapeVerb};
use lib::minigame::Difficulty;
use lib::rng::Rng;

#[test]
fn wrong_escape_verb_never_returns_the_correct_one() {
    let mut rng = Rng::new(1234);
    for _ in 0..200 {
        let picked = wrong_escape_verb(&mut rng, EscapeVerb::Hop);
        assert_ne!(picked, EscapeVerb::Hop);
        let picked = wrong_escape_verb(&mut rng, EscapeVerb::Anchor);
        assert_ne!(picked, EscapeVerb::Anchor);
        let picked = wrong_escape_verb(&mut rng, EscapeVerb::Carve);
        assert_ne!(picked, EscapeVerb::Carve);
    }
}

#[test]
fn wrong_escape_verb_follows_the_draw() {
    let mut a = Rng::new(99);
    let mut b = Rng::new(99);
    let draw = b.range_i32(0, 2);
    let picked = wrong_escape_verb(&mut a, EscapeVerb::Hop);
    assert_eq!(picked, if draw == 0 { EscapeVerb::Anchor } else { EscapeVerb::Carve });
}

#[test]
fn observation_ring_buffer_reads_back_the_delayed_slot() {
    let mut buf = DelayBuffer::new(0u32);
    for i in 0..10u32 {
        buf.push(i);
    }
    assert_eq!(buf.delayed(0), 9);
    assert_eq!(buf.delayed(3), 6);
    assert_eq!(buf.delayed(999), 0);
}

#[test]
fn ring_buffer_keeps_only_the_last_forty() {
    let mut buf = DelayBuffer::new(u32::MAX);
    assert_eq!(buf.delayed(5), u32::MAX, "nothing pushed yet reads the fill value");
    for i in 0..100u32 {
        buf.push(i);
    }
    assert_eq!(buf.delayed(0), 99);
    assert_eq!(buf.delayed(39), 60);
    assert_eq!(buf.delayed(40), 60, "clamped to the oldest held");
}

#[test]
fn tier_lookup_matches_difficulty_declaration_order() {
    assert_eq!(reaction_delay_steps(Difficulty::Easy), 30);
    assert_eq!(reaction_delay_steps(Difficulty::Normal), 16);
    assert_eq!(reaction_delay_steps(Difficulty::Hard), 8);
    assert_eq!(reaction_delay_steps(Difficulty::Ace), 4);
}
