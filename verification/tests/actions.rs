use sprite_scene::action::{Action, ActionState, Status};
use sprite_scene::easing::{eased_factor, lerp_value, EaseFunction, FACTOR_ONE, UNIT};
use sprite_scene::sprite::{Sprite, Texture};

fn tex() -> Texture {
    Texture { handle: 1, width: 64, height: 64 }
}

fn sprite_at_origin() -> Sprite {
    let mut s = Sprite::from_texture(tex());
    s.set_position(0, 0);
    s
}

// A MoveTo of 2 seconds to (100, 0): after 1 second the sprite stands halfway
// at (50, 0) and still runs; after 1 more it stands exactly at (100, 0),
// completed with no overflow.
#[test]
fn move_to_two_ticks() {
    let mut s = sprite_at_origin();
    let action = Action::MoveTo(2_000, 100 * UNIT, 0);
    let st = action.to_state(&s);
    let (st, status, overflow) = st.update(&mut s, 1_000);
    assert_eq!(s.position(), (50 * UNIT, 0));
    assert_eq!(status, Status::Running);
    assert_eq!(overflow, 0);
    let (_st, status, overflow) = st.update(&mut s, 1_000);
    assert_eq!(s.position(), (100 * UNIT, 0));
    assert_eq!(status, Status::Completed);
    assert_eq!(overflow, 0);
}

// A big step never overshoots: the field lands exactly on the declared end.
#[test]
fn move_to_overshoot_lands_exactly() {
    let mut s = sprite_at_origin();
    let st = Action::MoveTo(1_000, 123_456, 789).to_state(&s);
    let (_st, status, overflow) = st.update(&mut s, 5_000);
    assert_eq!(s.position(), (123_456, 789));
    assert_eq!(status, Status::Completed);
    assert_eq!(overflow, 4_000);
}

// A sequence of a 1-second wait and a 1-second MoveBy, advanced by 2.5
// seconds in one call: both steps complete within the call, the sprite stands
// at (10, 0), and the half second left over comes back to the caller.
#[test]
fn sequence_carries_overflow() {
    let mut s = sprite_at_origin();
    let seq = Action::Sequence(vec![Action::Wait(1_000), Action::MoveBy(1_000, 10 * UNIT, 0)]);
    let st = seq.to_state(&s);
    let (_st, status, overflow) = st.update(&mut s, 2_500);
    assert_eq!(s.position(), (10 * UNIT, 0));
    assert_eq!(status, Status::Completed);
    assert_eq!(overflow, 500);
}

// A sequence advanced by exactly the sum of its two durations completes both
// steps in one call with zero residual overflow.
#[test]
fn sequence_exact_sum_no_residue() {
    let mut s = sprite_at_origin();
    let seq = Action::Sequence(vec![Action::Wait(700), Action::MoveBy(300, UNIT, 0)]);
    let st = seq.to_state(&s);
    let (_st, status, overflow) = st.update(&mut s, 1_000);
    assert_eq!(status, Status::Completed);
    assert_eq!(overflow, 0);
    assert_eq!(s.position(), (UNIT, 0));
}

// A zero duration completes at once: FadeTo(0, 0.5) sets the opacity to 0.5
// immediately and hands the whole step back as overflow.
#[test]
fn zero_duration_fade_completes_at_once() {
    let mut s = sprite_at_origin();
    let st = Action::FadeTo(0, UNIT / 2).to_state(&s);
    let (_st, status, overflow) = st.update(&mut s, 777);
    assert_eq!(s.opacity(), UNIT / 2);
    assert_eq!(status, Status::Completed);
    assert_eq!(overflow, 777);
}

// Binding reads the sprite's current fields: `By` actions aim at
// current-plus-delta, `To` actions at the literal target, and `FadeTo`
// starts from the current opacity.
#[test]
fn binding_captures_current_values() {
    let mut s = sprite_at_origin();
    s.set_position(5 * UNIT, 6 * UNIT);
    s.set_rotation(10 * UNIT);
    let st = Action::MoveBy(100, 2 * UNIT, -1 * UNIT).to_state(&s);
    let mut t = sprite_at_origin();
    let (_st, _status, _o) = st.update(&mut t, 100);
    assert_eq!(t.position(), (7 * UNIT, 5 * UNIT));
    let st = Action::RotateBy(100, 5 * UNIT).to_state(&s);
    let (_st, _status, _o) = st.update(&mut t, 100);
    assert_eq!(t.rotation(), 15 * UNIT);
}

// Binding is pure: binding two actions from one unmutated sprite yields the
// same start values in either order.
#[test]
fn binding_order_does_not_matter() {
    let s = {
        let mut s = sprite_at_origin();
        s.set_position(3 * UNIT, 4 * UNIT);
        s
    };
    let a = Action::MoveTo(1_000, 9 * UNIT, 9 * UNIT);
    let b = Action::RotateTo(1_000, 90 * UNIT);
    // order one: a then b
    let sa1 = a.to_state(&s);
    let sb1 = b.to_state(&s);
    // order two: b then a
    let sb2 = b.to_state(&s);
    let sa2 = a.to_state(&s);
    let mut t1 = sprite_at_origin();
    let mut t2 = sprite_at_origin();
    sa1.update(&mut t1, 500);
    sa2.update(&mut t2, 500);
    assert_eq!(t1.position(), t2.position());
    sb1.update(&mut t1, 500);
    sb2.update(&mut t2, 500);
    assert_eq!(t1.rotation(), t2.rotation());
}

// Instantaneous actions: flips and visibility switches apply on the first
// tick, complete, and hand the whole step back.
#[test]
fn instantaneous_actions() {
    let mut s = sprite_at_origin();
    let (_st, status, overflow) = Action::FlipX(true).to_state(&s).update(&mut s, 250);
    assert!(s.flip_x);
    assert_eq!(status, Status::Completed);
    assert_eq!(overflow, 250);
    let (_st, _status, _o) = Action::Hide.to_state(&s).update(&mut s, 1);
    assert!(!s.visible());
    let (_st, _status, _o) = Action::ToggleVisibility.to_state(&s).update(&mut s, 1);
    assert!(s.visible());
    let (_st, _status, _o) = Action::Show.to_state(&s).update(&mut s, 1);
    assert!(s.visible());
    let (_st, _status, _o) = Action::FlipY(true).to_state(&s).update(&mut s, 1);
    assert!(s.flip_y);
}

// Blink toggles visibility 2 * times times, evenly spaced, and ends as it
// began: Blink(1s, twice) has boundaries at 0.25s, 0.5s, 0.75s and 1s.
#[test]
fn blink_toggles_evenly() {
    let mut s = sprite_at_origin();
    assert!(s.visible());
    let st = Action::Blink(1_000, 2).to_state(&s);
    let (st, status, _o) = st.update(&mut s, 300); // past 0.25s: one toggle
    assert_eq!(status, Status::Running);
    assert!(!s.visible());
    let (st, status, _o) = st.update(&mut s, 300); // past 0.5s: one more
    assert_eq!(status, Status::Running);
    assert!(s.visible());
    let (_st, status, overflow) = st.update(&mut s, 500); // completes
    assert_eq!(status, Status::Completed);
    assert_eq!(overflow, 100);
    assert!(s.visible()); // even total: back where it began
}

// FadeIn runs from transparent to fully opaque and FadeOut from fully opaque
// to transparent, over the implied bounds 0 and 1 whatever opacity the sprite
// held at binding; only the midpoints betray the start values.
#[test]
fn fade_in_and_out_targets() {
    let mut s = sprite_at_origin();
    s.set_opacity(UNIT / 4);
    let st = Action::FadeIn(100).to_state(&s);
    let (st, _status, _o) = st.update(&mut s, 50);
    assert_eq!(s.opacity(), UNIT / 2); // halfway from 0 to 1, not from 1/4
    let (_st, _status, _o) = st.update(&mut s, 50);
    assert_eq!(s.opacity(), UNIT);
    s.set_opacity(UNIT / 4);
    let st = Action::FadeOut(100).to_state(&s);
    let (st, _status, _o) = st.update(&mut s, 50);
    assert_eq!(s.opacity(), UNIT / 2); // halfway from 1 to 0, not from 1/4
    let (_st, _status, _o) = st.update(&mut s, 50);
    assert_eq!(s.opacity(), 0);
}

// Fading interpolates linearly: halfway through, opacity stands halfway.
#[test]
fn fade_midpoint() {
    let mut s = sprite_at_origin();
    s.set_opacity(0);
    let st = Action::FadeTo(1_000, UNIT).to_state(&s);
    let (_st, status, _o) = st.update(&mut s, 500);
    assert_eq!(status, Status::Running);
    assert_eq!(s.opacity(), UNIT / 2);
}

// An eased move passes through the eased value: quadratic-in progress at the
// halfway point is a quarter.
#[test]
fn eased_move_quadratic_in() {
    let mut s = sprite_at_origin();
    let action = Action::Ease(
        EaseFunction::QuadraticIn,
        Box::new(Action::MoveTo(1_000, 100 * UNIT, 0)),
    );
    let st = action.to_state(&s);
    let (_st, status, _o) = st.update(&mut s, 500);
    assert_eq!(status, Status::Running);
    assert_eq!(s.position(), (25 * UNIT, 0));
}

// The easing curves hit their exact fixed-point values and endpoints.
#[test]
fn easing_factors_exact() {
    let half = 500;
    let dur = 1_000;
    assert_eq!(eased_factor(EaseFunction::Linear, half, dur), FACTOR_ONE / 2);
    assert_eq!(eased_factor(EaseFunction::QuadraticIn, half, dur), FACTOR_ONE / 4);
    assert_eq!(eased_factor(EaseFunction::QuadraticOut, half, dur), 3 * FACTOR_ONE / 4);
    assert_eq!(eased_factor(EaseFunction::QuadraticInOut, half, dur), FACTOR_ONE / 2);
    assert_eq!(eased_factor(EaseFunction::QuinticIn, half, dur), FACTOR_ONE / 32);
    assert_eq!(eased_factor(EaseFunction::QuinticOut, half, dur), 31 * FACTOR_ONE / 32);
    assert_eq!(eased_factor(EaseFunction::QuinticInOut, half, dur), FACTOR_ONE / 2);
    for f in [
        EaseFunction::Linear,
        EaseFunction::QuadraticIn,
        EaseFunction::QuadraticOut,
        EaseFunction::QuadraticInOut,
        EaseFunction::QuinticIn,
        EaseFunction::QuinticOut,
        EaseFunction::QuinticInOut,
    ] {
        assert_eq!(eased_factor(f, 0, dur), 0);
        assert_eq!(eased_factor(f, dur, dur), FACTOR_ONE);
    }
}

// Linear interpolation hits its exact fixed-point values, downward too.
#[test]
fn lerp_exact_values() {
    assert_eq!(lerp_value(0, 100 * UNIT, FACTOR_ONE / 2), 50 * UNIT);
    assert_eq!(lerp_value(100 * UNIT, 0, FACTOR_ONE / 4), 75 * UNIT);
    assert_eq!(lerp_value(-10, 10, FACTOR_ONE), 10);
    assert_eq!(lerp_value(-10, 10, 0), -10);
}

// An empty sequence is born terminal: it mutates nothing and completes with
// the whole step as overflow.
#[test]
fn empty_sequence_is_terminal() {
    let mut s = sprite_at_origin();
    let st = Action::Sequence(vec![]).to_state(&s);
    assert!(matches!(st, ActionState::EmptyState));
    let (_st, status, overflow) = st.update(&mut s, 42);
    assert_eq!(status, Status::Completed);
    assert_eq!(overflow, 42);
    assert_eq!(s.position(), (0, 0));
}

// A sequence executes instantaneous steps as it reaches them, within the same
// call.
#[test]
fn sequence_with_instantaneous_steps() {
    let mut s = sprite_at_origin();
    let seq = Action::Sequence(vec![Action::Hide, Action::Wait(1_000), Action::Show]);
    let st = seq.to_state(&s);
    let (st, status, _o) = st.update(&mut s, 500);
    assert_eq!(status, Status::Running);
    assert!(!s.visible());
    let (_st, status, overflow) = st.update(&mut s, 600);
    assert_eq!(status, Status::Completed);
    assert_eq!(overflow, 100);
    assert!(s.visible());
}

// Saturating By-binding: a relative target beyond the representable range
// clips to it instead of wrapping.
#[test]
fn move_by_saturates() {
    let mut s = sprite_at_origin();
    s.set_position(i64::MAX - 5, 0);
    let st = Action::MoveBy(0, 100, 0).to_state(&s);
    let mut t = sprite_at_origin();
    let (_st, status, _o) = st.update(&mut t, 1);
    assert_eq!(status, Status::Completed);
    assert_eq!(t.position(), (i64::MAX, 0));
}
