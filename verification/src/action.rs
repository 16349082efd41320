//! Actions and their running states: the declarative descriptions of timed
//! sprite transformations, and the per-tick state machine that applies them.

use crate::easing::{eased_factor, eased_progress, lerp_i64, lerp_value, sat_add, sat_add_time,
    EaseFunction, UNIT};
use crate::sprite::{clip_add, clip_i64, sprite_view, Sprite, SpriteV};
use vstd::arithmetic::mul::lemma_mul_inequality;
use vstd::prelude::*;

verus! {

/// Whether a running action still has work left after a time step.
#[derive(Clone, Copy, Debug, PartialEq, Eq, Structural)]
pub enum Status {
    Running,
    Completed,
}

/// An immutable, reusable description of a timed transformation of a sprite.
///
/// Durations are in milliseconds; values are fixed-point sprite values (see
/// [`crate::easing`]). `To` variants name an absolute target, `By` variants a
/// change relative to the sprite's value when the action is bound. `Sequence`
/// runs its steps one after the other, carrying left-over time from a
/// completed step straight into the next within the same tick; `Wait` consumes
/// time without touching the sprite; `Ease` remaps the inner action's
/// progress.
#[derive(Debug)]
pub enum Action {
    /// duration, x, y: move the sprite to a position
    MoveTo(u64, i64, i64),
    /// duration, dx, dy: move the sprite by an offset
    MoveBy(u64, i64, i64),
    /// duration, degrees: rotate the sprite to an angle
    RotateTo(u64, i64),
    /// duration, degrees: rotate the sprite by an angle
    RotateBy(u64, i64),
    /// duration, sx, sy: scale the sprite to a factor per axis
    ScaleTo(u64, i64, i64),
    /// duration, dsx, dsy: scale the sprite by a factor change per axis
    ScaleBy(u64, i64, i64),
    /// set the horizontal flip flag
    FlipX(bool),
    /// set the vertical flip flag
    FlipY(bool),
    /// make the sprite visible
    Show,
    /// make the sprite invisible
    Hide,
    /// invert the sprite's visibility
    ToggleVisibility,
    /// duration, times: toggle visibility `2 * times` times, evenly spaced
    Blink(u64, u32),
    /// duration: fade the sprite's opacity from transparent to fully opaque
    FadeIn(u64),
    /// duration: fade the sprite's opacity from fully opaque to transparent
    FadeOut(u64),
    /// duration, opacity: fade the sprite's opacity from its current value to
    /// a target
    FadeTo(u64, i64),
    /// run the inner action with its progress remapped by an easing function
    Ease(EaseFunction, Box<Action>),
    /// duration: consume time without touching the sprite
    Wait(u64),
    /// run the steps in order, carrying completion overflow into the next step
    Sequence(Vec<Action>),
}

/// The mathematical model of an [`Action`]: the same tree with sequences over
/// `Seq`. Contracts speak of this form.
pub enum ActionV {
    MoveTo(u64, i64, i64),
    MoveBy(u64, i64, i64),
    RotateTo(u64, i64),
    RotateBy(u64, i64),
    ScaleTo(u64, i64, i64),
    ScaleBy(u64, i64, i64),
    FlipX(bool),
    FlipY(bool),
    Show,
    Hide,
    ToggleVisibility,
    Blink(u64, u32),
    FadeIn(u64),
    FadeOut(u64),
    FadeTo(u64, i64),
    Ease(EaseFunction, Box<ActionV>),
    Wait(u64),
    Sequence(Seq<ActionV>),
}

/// The live progress record of one action bound to one sprite.
///
/// Interpolating states carry the time elapsed so far, the total duration,
/// the easing in force, and the start and end values captured when the action
/// was bound. Instantaneous states carry only what their one-shot mutation
/// needs. A sequence state keeps the step list, the index of the next step to
/// bind, and the state of the step now running. `EmptyState` is terminal.
#[derive(Debug)]
pub enum ActionState {
    MoveState { elapsed: u64, duration: u64, ease: EaseFunction, start_x: i64, start_y: i64, end_x: i64, end_y: i64 },
    RotateState { elapsed: u64, duration: u64, ease: EaseFunction, start: i64, end: i64 },
    ScaleState { elapsed: u64, duration: u64, ease: EaseFunction, start_x: i64, start_y: i64, end_x: i64, end_y: i64 },
    FadeState { elapsed: u64, duration: u64, ease: EaseFunction, start: i64, end: i64 },
    BlinkState { elapsed: u64, duration: u64, times: u32 },
    WaitState { elapsed: u64, duration: u64 },
    FlipXState { flipped: bool },
    FlipYState { flipped: bool },
    ShowState,
    HideState,
    ToggleState,
    SequenceState { steps: Vec<Action>, next: usize, current: Box<ActionState> },
    EmptyState,
}

/// The mathematical model of an [`ActionState`].
pub enum StateV {
    MoveState { elapsed: u64, duration: u64, ease: EaseFunction, start_x: i64, start_y: i64, end_x: i64, end_y: i64 },
    RotateState { elapsed: u64, duration: u64, ease: EaseFunction, start: i64, end: i64 },
    ScaleState { elapsed: u64, duration: u64, ease: EaseFunction, start_x: i64, start_y: i64, end_x: i64, end_y: i64 },
    FadeState { elapsed: u64, duration: u64, ease: EaseFunction, start: i64, end: i64 },
    BlinkState { elapsed: u64, duration: u64, times: u32 },
    WaitState { elapsed: u64, duration: u64 },
    FlipXState { flipped: bool },
    FlipYState { flipped: bool },
    ShowState,
    HideState,
    ToggleState,
    SequenceState { steps: Seq<ActionV>, next: int, current: Box<StateV> },
    EmptyState,
}

/// The model of an action.
pub open spec fn act_view(a: Action) -> ActionV
    decreases a,
{
    match a {
        Action::MoveTo(d, x, y) => ActionV::MoveTo(d, x, y),
        Action::MoveBy(d, x, y) => ActionV::MoveBy(d, x, y),
        Action::RotateTo(d, r) => ActionV::RotateTo(d, r),
        Action::RotateBy(d, r) => ActionV::RotateBy(d, r),
        Action::ScaleTo(d, x, y) => ActionV::ScaleTo(d, x, y),
        Action::ScaleBy(d, x, y) => ActionV::ScaleBy(d, x, y),
        Action::FlipX(b) => ActionV::FlipX(b),
        Action::FlipY(b) => ActionV::FlipY(b),
        Action::Show => ActionV::Show,
        Action::Hide => ActionV::Hide,
        Action::ToggleVisibility => ActionV::ToggleVisibility,
        Action::Blink(d, n) => ActionV::Blink(d, n),
        Action::FadeIn(d) => ActionV::FadeIn(d),
        Action::FadeOut(d) => ActionV::FadeOut(d),
        Action::FadeTo(d, o) => ActionV::FadeTo(d, o),
        Action::Ease(f, inner) => ActionV::Ease(f, Box::new(act_view(*inner))),
        Action::Wait(d) => ActionV::Wait(d),
        Action::Sequence(steps) => ActionV::Sequence(acts_view(steps@)),
    }
}

/// The model of a list of actions, elementwise.
pub open spec fn acts_view(s: Seq<Action>) -> Seq<ActionV>
    decreases s,
{
    if s.len() == 0 {
        Seq::empty()
    } else {
        seq![act_view(s[0])] + acts_view(s.drop_first())
    }
}

/// The model of a running action state.
pub open spec fn state_view(st: ActionState) -> StateV
    decreases st,
{
    match st {
        ActionState::MoveState { elapsed, duration, ease, start_x, start_y, end_x, end_y } =>
            StateV::MoveState { elapsed, duration, ease, start_x, start_y, end_x, end_y },
        ActionState::RotateState { elapsed, duration, ease, start, end } =>
            StateV::RotateState { elapsed, duration, ease, start, end },
        ActionState::ScaleState { elapsed, duration, ease, start_x, start_y, end_x, end_y } =>
            StateV::ScaleState { elapsed, duration, ease, start_x, start_y, end_x, end_y },
        ActionState::FadeState { elapsed, duration, ease, start, end } =>
            StateV::FadeState { elapsed, duration, ease, start, end },
        ActionState::BlinkState { elapsed, duration, times } =>
            StateV::BlinkState { elapsed, duration, times },
        ActionState::WaitState { elapsed, duration } => StateV::WaitState { elapsed, duration },
        ActionState::FlipXState { flipped } => StateV::FlipXState { flipped },
        ActionState::FlipYState { flipped } => StateV::FlipYState { flipped },
        ActionState::ShowState => StateV::ShowState,
        ActionState::HideState => StateV::HideState,
        ActionState::ToggleState => StateV::ToggleState,
        ActionState::SequenceState { steps, next, current } => StateV::SequenceState {
            steps: acts_view(steps@),
            next: next as int,
            current: Box::new(state_view(*current)),
        },
        ActionState::EmptyState => StateV::EmptyState,
    }
}

/// The models of a list of states, elementwise.
pub open spec fn states_view(s: Seq<ActionState>) -> Seq<StateV>
    decreases s,
{
    if s.len() == 0 {
        Seq::empty()
    } else {
        seq![state_view(s[0])] + states_view(s.drop_first())
    }
}

/// `acts_view` maps elementwise.
pub proof fn lemma_acts_view(s: Seq<Action>)
    ensures
        acts_view(s).len() == s.len(),
        forall|i: int| 0 <= i < s.len() ==> acts_view(s)[i] == act_view(s[i]),
    decreases s.len(),
{
    if s.len() > 0 {
        lemma_acts_view(s.drop_first());
    }
}

/// `states_view` maps elementwise.
pub proof fn lemma_states_view(s: Seq<ActionState>)
    ensures
        states_view(s).len() == s.len(),
        forall|i: int| 0 <= i < s.len() ==> states_view(s)[i] == state_view(s[i]),
    decreases s.len(),
{
    if s.len() > 0 {
        lemma_states_view(s.drop_first());
    }
}

/// The size of an action description; sequence steps from `i` on count into
/// `suffix_size`.
pub open spec fn av_size(a: ActionV) -> nat
    decreases a,
{
    match a {
        ActionV::Ease(_, inner) => 1 + av_size(*inner),
        ActionV::Sequence(steps) => 1 + suffix_size(steps, 0),
        _ => 1,
    }
}

/// The combined size of the steps of `s` from index `i` on.
pub open spec fn suffix_size(s: Seq<ActionV>, i: int) -> nat
    decreases s, s.len() - i,
{
    if 0 <= i < s.len() {
        av_size(s[i]) + suffix_size(s, i + 1)
    } else {
        0
    }
}

/// The size of a running state: what advancing it can still consume.
pub open spec fn sv_size(st: StateV) -> nat
    decreases st,
{
    match st {
        StateV::SequenceState { steps, next, current } => 1 + sv_size(*current) + suffix_size(
            steps,
            next,
        ),
        _ => 1,
    }
}

/// `st` with its easing replaced, where `st` interpolates; other states are
/// untouched.
pub open spec fn with_ease(st: StateV, f: EaseFunction) -> StateV {
    match st {
        StateV::MoveState { elapsed, duration, ease, start_x, start_y, end_x, end_y } =>
            StateV::MoveState { elapsed, duration, ease: f, start_x, start_y, end_x, end_y },
        StateV::RotateState { elapsed, duration, ease, start, end } =>
            StateV::RotateState { elapsed, duration, ease: f, start, end },
        StateV::ScaleState { elapsed, duration, ease, start_x, start_y, end_x, end_y } =>
            StateV::ScaleState { elapsed, duration, ease: f, start_x, start_y, end_x, end_y },
        StateV::FadeState { elapsed, duration, ease, start, end } =>
            StateV::FadeState { elapsed, duration, ease: f, start, end },
        _ => st,
    }
}

/// The state a fresh action takes against a sprite's current values: `To`
/// targets are taken as they stand, `By` targets are the sprite's value plus
/// the offset (saturated), `FadeTo` starts from the current opacity while
/// `FadeIn` and `FadeOut` run over the implied bounds 0 and 1, and a sequence
/// binds its first step at once. Binding reads the sprite and never changes
/// it.
pub open spec fn bind(a: ActionV, spr: SpriteV) -> StateV
    decreases a,
{
    match a {
        ActionV::MoveTo(d, x, y) => StateV::MoveState {
            elapsed: 0u64,
            duration: d,
            ease: EaseFunction::Linear,
            start_x: spr.position.0,
            start_y: spr.position.1,
            end_x: x,
            end_y: y,
        },
        ActionV::MoveBy(d, dx, dy) => StateV::MoveState {
            elapsed: 0u64,
            duration: d,
            ease: EaseFunction::Linear,
            start_x: spr.position.0,
            start_y: spr.position.1,
            end_x: clip_i64(spr.position.0 + dx),
            end_y: clip_i64(spr.position.1 + dy),
        },
        ActionV::RotateTo(d, r) => StateV::RotateState {
            elapsed: 0u64,
            duration: d,
            ease: EaseFunction::Linear,
            start: spr.rotation,
            end: r,
        },
        ActionV::RotateBy(d, r) => StateV::RotateState {
            elapsed: 0u64,
            duration: d,
            ease: EaseFunction::Linear,
            start: spr.rotation,
            end: clip_i64(spr.rotation + r),
        },
        ActionV::ScaleTo(d, sx, sy) => StateV::ScaleState {
            elapsed: 0u64,
            duration: d,
            ease: EaseFunction::Linear,
            start_x: spr.scale.0,
            start_y: spr.scale.1,
            end_x: sx,
            end_y: sy,
        },
        ActionV::ScaleBy(d, dsx, dsy) => StateV::ScaleState {
            elapsed: 0u64,
            duration: d,
            ease: EaseFunction::Linear,
            start_x: spr.scale.0,
            start_y: spr.scale.1,
            end_x: clip_i64(spr.scale.0 + dsx),
            end_y: clip_i64(spr.scale.1 + dsy),
        },
        ActionV::FlipX(b) => StateV::FlipXState { flipped: b },
        ActionV::FlipY(b) => StateV::FlipYState { flipped: b },
        ActionV::Show => StateV::ShowState,
        ActionV::Hide => StateV::HideState,
        ActionV::ToggleVisibility => StateV::ToggleState,
        ActionV::Blink(d, n) => StateV::BlinkState { elapsed: 0u64, duration: d, times: n },
        ActionV::FadeIn(d) => StateV::FadeState {
            elapsed: 0u64,
            duration: d,
            ease: EaseFunction::Linear,
            start: 0i64,
            end: UNIT,
        },
        ActionV::FadeOut(d) => StateV::FadeState {
            elapsed: 0u64,
            duration: d,
            ease: EaseFunction::Linear,
            start: UNIT,
            end: 0i64,
        },
        ActionV::FadeTo(d, o) => StateV::FadeState {
            elapsed: 0u64,
            duration: d,
            ease: EaseFunction::Linear,
            start: spr.opacity,
            end: o,
        },
        ActionV::Ease(f, inner) => with_ease(bind(*inner, spr), f),
        ActionV::Wait(d) => StateV::WaitState { elapsed: 0u64, duration: d },
        ActionV::Sequence(steps) => {
            if steps.len() == 0 {
                StateV::EmptyState
            } else {
                StateV::SequenceState {
                    steps,
                    next: 1,
                    current: Box::new(bind(steps[0], spr)),
                }
            }
        },
    }
}

/// Changing the easing of a state does not change its size.
pub proof fn lemma_with_ease_size(st: StateV, f: EaseFunction)
    ensures
        sv_size(with_ease(st, f)) == sv_size(st),
{
    match st {
        StateV::MoveState { .. } => {},
        StateV::RotateState { .. } => {},
        StateV::ScaleState { .. } => {},
        StateV::FadeState { .. } => {},
        _ => {},
    }
}

/// Binding cannot grow a state beyond its action.
pub proof fn lemma_bind_size(a: ActionV, spr: SpriteV)
    ensures
        sv_size(bind(a, spr)) <= av_size(a),
    decreases a,
{
    match a {
        ActionV::Ease(f, inner) => {
            lemma_bind_size(*inner, spr);
            lemma_with_ease_size(bind(*inner, spr), f);
            assert(bind(a, spr) == with_ease(bind(*inner, spr), f));
            assert(av_size(a) == 1 + av_size(*inner));
        },
        ActionV::Sequence(steps) => {
            if steps.len() > 0 {
                lemma_bind_size(steps[0], spr);
                assert(suffix_size(steps, 0) == av_size(steps[0]) + suffix_size(steps, 1));
                assert(sv_size(bind(a, spr)) == 1 + sv_size(bind(steps[0], spr)) + suffix_size(
                    steps,
                    1,
                ));
            } else {
                assert(bind(a, spr) == StateV::EmptyState);
            }
        },
        _ => {
            assert(sv_size(bind(a, spr)) == 1);
        },
    }
}

/// Every state has positive size.
pub proof fn lemma_sv_size_pos(st: StateV)
    ensures
        sv_size(st) >= 1,
{
}

/// The number of visibility-phase boundaries of a blink that lie at or before
/// time `e`: `2 * times` boundaries are spread evenly across the duration,
/// and all have passed once `e` reaches the duration (at once, for a zero
/// duration).
pub open spec fn blink_phase(e: u64, dur: u64, times: u32) -> int {
    if dur == 0 {
        2 * times
    } else {
        let ec: int = if e > dur {
            dur as int
        } else {
            e as int
        };
        ec * (2 * times) / (dur as int)
    }
}

/// `spr` with its visibility inverted when `flips` is odd.
pub open spec fn toggled(spr: SpriteV, flips: int) -> SpriteV {
    if flips % 2 == 1 {
        SpriteV { visible: !spr.visible, ..spr }
    } else {
        spr
    }
}

/// One time step of the action state machine: the state after consuming
/// `dt`, the sprite it leaves behind, whether the action still runs, and the
/// left-over time.
///
/// Let `t` be the elapsed time plus `dt` (saturated). When `t` reaches the
/// duration the action completes: an interpolating state writes its exact end
/// value — never an extrapolation — and reports `t - duration` as overflow; a
/// zero duration therefore completes at once with all of `dt` left over.
/// Otherwise the sprite's field takes the value the eased fraction `t /
/// duration` of the way from start to end, and no time is left over.
/// Instantaneous states perform their one-shot mutation, complete, and hand
/// `dt` back whole. A sequence advances its current step, and on completion
/// binds the following step against the sprite as the completed step left it,
/// feeding it the overflow within the same call; the sequence runs until its
/// last step completes.
pub open spec fn advance(st: StateV, spr: SpriteV, dt: u64) -> (StateV, SpriteV, Status, u64)
    decreases sv_size(st),
        via advance_decreases
{
    match st {
        StateV::MoveState { elapsed, duration, ease, start_x, start_y, end_x, end_y } => {
            let t = sat_add(elapsed, dt);
            if t >= duration {
                (
                    StateV::EmptyState,
                    SpriteV { position: (end_x, end_y), ..spr },
                    Status::Completed,
                    (t - duration) as u64,
                )
            } else {
                let f = eased_progress(ease, t, duration);
                (
                    StateV::MoveState { elapsed: t, duration, ease, start_x, start_y, end_x, end_y },
                    SpriteV {
                        position: (lerp_i64(start_x, end_x, f), lerp_i64(start_y, end_y, f)),
                        ..spr
                    },
                    Status::Running,
                    0u64,
                )
            }
        },
        StateV::RotateState { elapsed, duration, ease, start, end } => {
            let t = sat_add(elapsed, dt);
            if t >= duration {
                (
                    StateV::EmptyState,
                    SpriteV { rotation: end, ..spr },
                    Status::Completed,
                    (t - duration) as u64,
                )
            } else {
                let f = eased_progress(ease, t, duration);
                (
                    StateV::RotateState { elapsed: t, duration, ease, start, end },
                    SpriteV { rotation: lerp_i64(start, end, f), ..spr },
                    Status::Running,
                    0u64,
                )
            }
        },
        StateV::ScaleState { elapsed, duration, ease, start_x, start_y, end_x, end_y } => {
            let t = sat_add(elapsed, dt);
            if t >= duration {
                (
                    StateV::EmptyState,
                    SpriteV { scale: (end_x, end_y), ..spr },
                    Status::Completed,
                    (t - duration) as u64,
                )
            } else {
                let f = eased_progress(ease, t, duration);
                (
                    StateV::ScaleState { elapsed: t, duration, ease, start_x, start_y, end_x, end_y },
                    SpriteV {
                        scale: (lerp_i64(start_x, end_x, f), lerp_i64(start_y, end_y, f)),
                        ..spr
                    },
                    Status::Running,
                    0u64,
                )
            }
        },
        StateV::FadeState { elapsed, duration, ease, start, end } => {
            let t = sat_add(elapsed, dt);
            if t >= duration {
                (
                    StateV::EmptyState,
                    SpriteV { opacity: end, ..spr },
                    Status::Completed,
                    (t - duration) as u64,
                )
            } else {
                let f = eased_progress(ease, t, duration);
                (
                    StateV::FadeState { elapsed: t, duration, ease, start, end },
                    SpriteV { opacity: lerp_i64(start, end, f), ..spr },
                    Status::Running,
                    0u64,
                )
            }
        },
        StateV::BlinkState { elapsed, duration, times } => {
            let t = sat_add(elapsed, dt);
            if t >= duration {
                let flips = 2 * times - blink_phase(elapsed, duration, times);
                (StateV::EmptyState, toggled(spr, flips), Status::Completed, (t - duration) as u64)
            } else {
                let flips = blink_phase(t, duration, times) - blink_phase(elapsed, duration, times);
                (
                    StateV::BlinkState { elapsed: t, duration, times },
                    toggled(spr, flips),
                    Status::Running,
                    0u64,
                )
            }
        },
        StateV::WaitState { elapsed, duration } => {
            let t = sat_add(elapsed, dt);
            if t >= duration {
                (StateV::EmptyState, spr, Status::Completed, (t - duration) as u64)
            } else {
                (StateV::WaitState { elapsed: t, duration }, spr, Status::Running, 0u64)
            }
        },
        StateV::FlipXState { flipped } => (
            StateV::EmptyState,
            SpriteV { flip_x: flipped, ..spr },
            Status::Completed,
            dt,
        ),
        StateV::FlipYState { flipped } => (
            StateV::EmptyState,
            SpriteV { flip_y: flipped, ..spr },
            Status::Completed,
            dt,
        ),
        StateV::ShowState => (
            StateV::EmptyState,
            SpriteV { visible: true, ..spr },
            Status::Completed,
            dt,
        ),
        StateV::HideState => (
            StateV::EmptyState,
            SpriteV { visible: false, ..spr },
            Status::Completed,
            dt,
        ),
        StateV::ToggleState => (
            StateV::EmptyState,
            SpriteV { visible: !spr.visible, ..spr },
            Status::Completed,
            dt,
        ),
        StateV::SequenceState { steps, next, current } => {
            let (c2, spr2, status, o) = advance(*current, spr, dt);
            if status == Status::Running {
                (
                    StateV::SequenceState { steps, next, current: Box::new(c2) },
                    spr2,
                    Status::Running,
                    0u64,
                )
            } else if 0 <= next < steps.len() {
                advance(
                    StateV::SequenceState {
                        steps,
                        next: next + 1,
                        current: Box::new(bind(steps[next], spr2)),
                    },
                    spr2,
                    o,
                )
            } else {
                (StateV::EmptyState, spr2, Status::Completed, o)
            }
        },
        StateV::EmptyState => (StateV::EmptyState, spr, Status::Completed, dt),
    }
}

/// A copy of an action with the same model.
pub fn clone_action(a: &Action) -> (r: Action)
    ensures
        act_view(r) == act_view(*a),
    decreases *a,
{
    match a {
        Action::MoveTo(d, x, y) => Action::MoveTo(*d, *x, *y),
        Action::MoveBy(d, x, y) => Action::MoveBy(*d, *x, *y),
        Action::RotateTo(d, r) => Action::RotateTo(*d, *r),
        Action::RotateBy(d, r) => Action::RotateBy(*d, *r),
        Action::ScaleTo(d, x, y) => Action::ScaleTo(*d, *x, *y),
        Action::ScaleBy(d, x, y) => Action::ScaleBy(*d, *x, *y),
        Action::FlipX(b) => Action::FlipX(*b),
        Action::FlipY(b) => Action::FlipY(*b),
        Action::Show => Action::Show,
        Action::Hide => Action::Hide,
        Action::ToggleVisibility => Action::ToggleVisibility,
        Action::Blink(d, n) => Action::Blink(*d, *n),
        Action::FadeIn(d) => Action::FadeIn(*d),
        Action::FadeOut(d) => Action::FadeOut(*d),
        Action::FadeTo(d, o) => Action::FadeTo(*d, *o),
        Action::Ease(f, inner) => Action::Ease(*f, Box::new(clone_action(&**inner))),
        Action::Wait(d) => Action::Wait(*d),
        Action::Sequence(steps) => Action::Sequence(clone_actions(steps)),
    }
}

/// A copy of a list of actions with the same models.
pub fn clone_actions(v: &Vec<Action>) -> (r: Vec<Action>)
    ensures
        r@.len() == v@.len(),
        acts_view(r@) == acts_view(v@),
    decreases v@,
{
    let mut r: Vec<Action> = Vec::new();
    let mut i: usize = 0;
    while i < v.len()
        invariant
            i <= v@.len(),
            r@.len() == i,
            forall|j: int| 0 <= j < i ==> act_view(r@[j]) == act_view(v@[j]),
        decreases v@.len() - i,
    {
        let c = clone_action(&v[i]);
        r.push(c);
        i = i + 1;
    }
    proof {
        lemma_acts_view(r@);
        lemma_acts_view(v@);
        assert(acts_view(r@) =~= acts_view(v@));
    }
    r
}

/// A copy of a running state with the same model.
pub fn clone_state(st: &ActionState) -> (r: ActionState)
    ensures
        state_view(r) == state_view(*st),
    decreases *st,
{
    match st {
        ActionState::MoveState { elapsed, duration, ease, start_x, start_y, end_x, end_y } =>
            ActionState::MoveState {
                elapsed: *elapsed,
                duration: *duration,
                ease: *ease,
                start_x: *start_x,
                start_y: *start_y,
                end_x: *end_x,
                end_y: *end_y,
            },
        ActionState::RotateState { elapsed, duration, ease, start, end } =>
            ActionState::RotateState {
                elapsed: *elapsed,
                duration: *duration,
                ease: *ease,
                start: *start,
                end: *end,
            },
        ActionState::ScaleState { elapsed, duration, ease, start_x, start_y, end_x, end_y } =>
            ActionState::ScaleState {
                elapsed: *elapsed,
                duration: *duration,
                ease: *ease,
                start_x: *start_x,
                start_y: *start_y,
                end_x: *end_x,
                end_y: *end_y,
            },
        ActionState::FadeState { elapsed, duration, ease, start, end } => ActionState::FadeState {
            elapsed: *elapsed,
            duration: *duration,
            ease: *ease,
            start: *start,
            end: *end,
        },
        ActionState::BlinkState { elapsed, duration, times } => ActionState::BlinkState {
            elapsed: *elapsed,
            duration: *duration,
            times: *times,
        },
        ActionState::WaitState { elapsed, duration } => ActionState::WaitState {
            elapsed: *elapsed,
            duration: *duration,
        },
        ActionState::FlipXState { flipped } => ActionState::FlipXState { flipped: *flipped },
        ActionState::FlipYState { flipped } => ActionState::FlipYState { flipped: *flipped },
        ActionState::ShowState => ActionState::ShowState,
        ActionState::HideState => ActionState::HideState,
        ActionState::ToggleState => ActionState::ToggleState,
        ActionState::SequenceState { steps, next, current } => ActionState::SequenceState {
            steps: clone_actions(steps),
            next: *next,
            current: Box::new(clone_state(&**current)),
        },
        ActionState::EmptyState => ActionState::EmptyState,
    }
}

/// `st` with its easing replaced, where `st` interpolates.
fn set_ease(st: ActionState, f: EaseFunction) -> (r: ActionState)
    ensures
        state_view(r) == with_ease(state_view(st), f),
{
    match st {
        ActionState::MoveState { elapsed, duration, ease, start_x, start_y, end_x, end_y } =>
            ActionState::MoveState { elapsed, duration, ease: f, start_x, start_y, end_x, end_y },
        ActionState::RotateState { elapsed, duration, ease, start, end } =>
            ActionState::RotateState { elapsed, duration, ease: f, start, end },
        ActionState::ScaleState { elapsed, duration, ease, start_x, start_y, end_x, end_y } =>
            ActionState::ScaleState { elapsed, duration, ease: f, start_x, start_y, end_x, end_y },
        ActionState::FadeState { elapsed, duration, ease, start, end } =>
            ActionState::FadeState { elapsed, duration, ease: f, start, end },
        other => other,
    }
}

impl Action {
    /// The running state this action takes when bound to `sprite`'s current
    /// values: the model of the result is `bind` of the models. The sprite is
    /// only read.
    pub fn to_state(&self, sprite: &Sprite) -> (r: ActionState)
        ensures
            state_view(r) == bind(act_view(*self), sprite_view(*sprite)),
        decreases *self,
    {
        match self {
            Action::MoveTo(d, x, y) => ActionState::MoveState {
                elapsed: 0,
                duration: *d,
                ease: EaseFunction::Linear,
                start_x: sprite.position.0,
                start_y: sprite.position.1,
                end_x: *x,
                end_y: *y,
            },
            Action::MoveBy(d, dx, dy) => ActionState::MoveState {
                elapsed: 0,
                duration: *d,
                ease: EaseFunction::Linear,
                start_x: sprite.position.0,
                start_y: sprite.position.1,
                end_x: clip_add(sprite.position.0, *dx),
                end_y: clip_add(sprite.position.1, *dy),
            },
            Action::RotateTo(d, r) => ActionState::RotateState {
                elapsed: 0,
                duration: *d,
                ease: EaseFunction::Linear,
                start: sprite.rotation,
                end: *r,
            },
            Action::RotateBy(d, r) => ActionState::RotateState {
                elapsed: 0,
                duration: *d,
                ease: EaseFunction::Linear,
                start: sprite.rotation,
                end: clip_add(sprite.rotation, *r),
            },
            Action::ScaleTo(d, sx, sy) => ActionState::ScaleState {
                elapsed: 0,
                duration: *d,
                ease: EaseFunction::Linear,
                start_x: sprite.scale.0,
                start_y: sprite.scale.1,
                end_x: *sx,
                end_y: *sy,
            },
            Action::ScaleBy(d, dsx, dsy) => ActionState::ScaleState {
                elapsed: 0,
                duration: *d,
                ease: EaseFunction::Linear,
                start_x: sprite.scale.0,
                start_y: sprite.scale.1,
                end_x: clip_add(sprite.scale.0, *dsx),
                end_y: clip_add(sprite.scale.1, *dsy),
            },
            Action::FlipX(b) => ActionState::FlipXState { flipped: *b },
            Action::FlipY(b) => ActionState::FlipYState { flipped: *b },
            Action::Show => ActionState::ShowState,
            Action::Hide => ActionState::HideState,
            Action::ToggleVisibility => ActionState::ToggleState,
            Action::Blink(d, n) => ActionState::BlinkState {
                elapsed: 0,
                duration: *d,
                times: *n,
            },
            Action::FadeIn(d) => ActionState::FadeState {
                elapsed: 0,
                duration: *d,
                ease: EaseFunction::Linear,
                start: 0,
                end: UNIT,
            },
            Action::FadeOut(d) => ActionState::FadeState {
                elapsed: 0,
                duration: *d,
                ease: EaseFunction::Linear,
                start: UNIT,
                end: 0,
            },
            Action::FadeTo(d, o) => ActionState::FadeState {
                elapsed: 0,
                duration: *d,
                ease: EaseFunction::Linear,
                start: sprite.opacity,
                end: *o,
            },
            Action::Ease(f, inner) => set_ease(inner.to_state(sprite), *f),
            Action::Wait(d) => ActionState::WaitState { elapsed: 0, duration: *d },
            Action::Sequence(steps) => {
                proof {
                    lemma_acts_view(steps@);
                }
                if steps.len() == 0 {
                    ActionState::EmptyState
                } else {
                    let first = steps[0].to_state(sprite);
                    ActionState::SequenceState {
                        steps: clone_actions(steps),
                        next: 1,
                        current: Box::new(first),
                    }
                }
            },
        }
    }
}

/// The blink phase count of `blink_phase`, computed exactly.
fn blink_phase_exec(e: u64, dur: u64, times: u32) -> (r: u64)
    ensures
        r == blink_phase(e, dur, times),
        r <= 2 * times,
{
    if dur == 0 {
        2 * (times as u64)
    } else {
        let ec: u64 = if e > dur {
            dur
        } else {
            e
        };
        let tw: u128 = 2 * (times as u128);
        proof {
            lemma_mul_inequality(ec as int, u64::MAX as int, tw as int);
        }
        let p: u128 = (ec as u128) * tw;
        let q: u128 = p / (dur as u128);
        proof {
            crate::easing::lemma_mul_div_le(tw as int, ec as int, dur as int);
            assert((tw as int) * (ec as int) == (ec as int) * (tw as int)) by (nonlinear_arith);
        }
        q as u64
    }
}

/// A blink's phase count never falls as time passes.
proof fn lemma_blink_phase_mono(e1: u64, e2: u64, dur: u64, times: u32)
    requires
        e1 <= e2,
    ensures
        blink_phase(e1, dur, times) <= blink_phase(e2, dur, times),
{
    if dur > 0 {
        let ec1: int = if e1 > dur { dur as int } else { e1 as int };
        let ec2: int = if e2 > dur { dur as int } else { e2 as int };
        lemma_mul_inequality(ec1, ec2, 2 * times);
        vstd::arithmetic::div_mod::lemma_div_is_ordered(
            ec1 * (2 * times),
            ec2 * (2 * times),
            dur as int,
        );
    }
}

/// A blink's phase count never passes `2 * times`.
proof fn lemma_blink_phase_le(e: u64, dur: u64, times: u32)
    ensures
        0 <= blink_phase(e, dur, times) <= 2 * times,
{
    if dur > 0 {
        let ec: int = if e > dur { dur as int } else { e as int };
        crate::easing::lemma_mul_div_le(2 * times, ec, dur as int);
        assert((2 * times) * ec == ec * (2 * times)) by (nonlinear_arith);
    }
}

impl ActionState {
    /// One time step: consumes `dt`, mutates `sprite` as the action
    /// prescribes, and returns the follow-on state, whether the action still
    /// runs, and the left-over time. The three results and the sprite are
    /// exactly what [`advance`] says of the models.
    pub fn update(&self, sprite: &mut Sprite, dt: u64) -> (r: (ActionState, Status, u64))
        ensures
            state_view(r.0) == advance(state_view(*self), sprite_view(*old(sprite)), dt).0,
            sprite_view(*final(sprite)) == advance(state_view(*self), sprite_view(*old(sprite)), dt).1,
            r.1 == advance(state_view(*self), sprite_view(*old(sprite)), dt).2,
            r.2 == advance(state_view(*self), sprite_view(*old(sprite)), dt).3,
        decreases sv_size(state_view(*self)),
    {
        match self {
            ActionState::MoveState { elapsed, duration, ease, start_x, start_y, end_x, end_y } => {
                let t = sat_add_time(*elapsed, dt);
                if t >= *duration {
                    sprite.position = (*end_x, *end_y);
                    (ActionState::EmptyState, Status::Completed, t - *duration)
                } else {
                    let f = eased_factor(*ease, t, *duration);
                    let nx = lerp_value(*start_x, *end_x, f);
                    let ny = lerp_value(*start_y, *end_y, f);
                    sprite.position = (nx, ny);
                    (
                        ActionState::MoveState {
                            elapsed: t,
                            duration: *duration,
                            ease: *ease,
                            start_x: *start_x,
                            start_y: *start_y,
                            end_x: *end_x,
                            end_y: *end_y,
                        },
                        Status::Running,
                        0,
                    )
                }
            },
            ActionState::RotateState { elapsed, duration, ease, start, end } => {
                let t = sat_add_time(*elapsed, dt);
                if t >= *duration {
                    sprite.rotation = *end;
                    (ActionState::EmptyState, Status::Completed, t - *duration)
                } else {
                    let f = eased_factor(*ease, t, *duration);
                    sprite.rotation = lerp_value(*start, *end, f);
                    (
                        ActionState::RotateState {
                            elapsed: t,
                            duration: *duration,
                            ease: *ease,
                            start: *start,
                            end: *end,
                        },
                        Status::Running,
                        0,
                    )
                }
            },
            ActionState::ScaleState { elapsed, duration, ease, start_x, start_y, end_x, end_y } => {
                let t = sat_add_time(*elapsed, dt);
                if t >= *duration {
                    sprite.scale = (*end_x, *end_y);
                    (ActionState::EmptyState, Status::Completed, t - *duration)
                } else {
                    let f = eased_factor(*ease, t, *duration);
                    let nx = lerp_value(*start_x, *end_x, f);
                    let ny = lerp_value(*start_y, *end_y, f);
                    sprite.scale = (nx, ny);
                    (
                        ActionState::ScaleState {
                            elapsed: t,
                            duration: *duration,
                            ease: *ease,
                            start_x: *start_x,
                            start_y: *start_y,
                            end_x: *end_x,
                            end_y: *end_y,
                        },
                        Status::Running,
                        0,
                    )
                }
            },
            ActionState::FadeState { elapsed, duration, ease, start, end } => {
                let t = sat_add_time(*elapsed, dt);
                if t >= *duration {
                    sprite.opacity = *end;
                    (ActionState::EmptyState, Status::Completed, t - *duration)
                } else {
                    let f = eased_factor(*ease, t, *duration);
                    sprite.opacity = lerp_value(*start, *end, f);
                    (
                        ActionState::FadeState {
                            elapsed: t,
                            duration: *duration,
                            ease: *ease,
                            start: *start,
                            end: *end,
                        },
                        Status::Running,
                        0,
                    )
                }
            },
            ActionState::BlinkState { elapsed, duration, times } => {
                let t = sat_add_time(*elapsed, dt);
                proof {
                    lemma_blink_phase_le(*elapsed, *duration, *times);
                    lemma_blink_phase_mono(*elapsed, t, *duration, *times);
                }
                if t >= *duration {
                    let ph = blink_phase_exec(*elapsed, *duration, *times);
                    let flips: u64 = 2 * (*times as u64) - ph;
                    if flips % 2 == 1 {
                        sprite.visible = !sprite.visible;
                    }
                    (ActionState::EmptyState, Status::Completed, t - *duration)
                } else {
                    let ph0 = blink_phase_exec(*elapsed, *duration, *times);
                    let ph1 = blink_phase_exec(t, *duration, *times);
                    let flips: u64 = ph1 - ph0;
                    if flips % 2 == 1 {
                        sprite.visible = !sprite.visible;
                    }
                    (
                        ActionState::BlinkState {
                            elapsed: t,
                            duration: *duration,
                            times: *times,
                        },
                        Status::Running,
                        0,
                    )
                }
            },
            ActionState::WaitState { elapsed, duration } => {
                let t = sat_add_time(*elapsed, dt);
                if t >= *duration {
                    (ActionState::EmptyState, Status::Completed, t - *duration)
                } else {
                    (
                        ActionState::WaitState { elapsed: t, duration: *duration },
                        Status::Running,
                        0,
                    )
                }
            },
            ActionState::FlipXState { flipped } => {
                sprite.flip_x = *flipped;
                (ActionState::EmptyState, Status::Completed, dt)
            },
            ActionState::FlipYState { flipped } => {
                sprite.flip_y = *flipped;
                (ActionState::EmptyState, Status::Completed, dt)
            },
            ActionState::ShowState => {
                sprite.visible = true;
                (ActionState::EmptyState, Status::Completed, dt)
            },
            ActionState::HideState => {
                sprite.visible = false;
                (ActionState::EmptyState, Status::Completed, dt)
            },
            ActionState::ToggleState => {
                sprite.visible = !sprite.visible;
                (ActionState::EmptyState, Status::Completed, dt)
            },
            ActionState::SequenceState { steps, next, current } => {
                proof {
                    lemma_acts_view(steps@);
                }
                let mut cur: ActionState = clone_state(&**current);
                let mut idx: usize = *next;
                let mut rem: u64 = dt;
                loop
                    invariant
                        acts_view(steps@).len() == steps@.len(),
                        sv_size(state_view(cur)) + suffix_size(acts_view(steps@), idx as int)
                            < sv_size(state_view(*self)),
                        advance(state_view(*self), sprite_view(*old(sprite)), dt) == advance(
                            StateV::SequenceState {
                                steps: acts_view(steps@),
                                next: idx as int,
                                current: Box::new(state_view(cur)),
                            },
                            sprite_view(*sprite),
                            rem,
                        ),
                    decreases sv_size(state_view(cur)) + suffix_size(acts_view(steps@), idx as int),
                {
                    let (ncur, status, o) = cur.update(sprite, rem);
                    match status {
                        Status::Running => {
                            return (
                                ActionState::SequenceState {
                                    steps: clone_actions(steps),
                                    next: idx,
                                    current: Box::new(ncur),
                                },
                                Status::Running,
                                0,
                            );
                        },
                        Status::Completed => {
                            if idx < steps.len() {
                                proof {
                                    lemma_acts_view(steps@);
                                    lemma_sv_size_pos(state_view(cur));
                                    assert forall|sp: SpriteV| #![trigger bind(act_view(steps@[idx as int]), sp)]
                                        sv_size(bind(act_view(steps@[idx as int]), sp)) <= av_size(
                                        act_view(steps@[idx as int]),
                                    ) by {
                                        lemma_bind_size(act_view(steps@[idx as int]), sp);
                                    }
                                    assert(suffix_size(acts_view(steps@), idx as int) == av_size(
                                        acts_view(steps@)[idx as int],
                                    ) + suffix_size(acts_view(steps@), idx as int + 1));
                                }
                                let bound = steps[idx].to_state(sprite);
                                cur = bound;
                                idx = idx + 1;
                                rem = o;
                            } else {
                                return (ActionState::EmptyState, Status::Completed, o);
                            }
                        },
                    }
                }
            },
            ActionState::EmptyState => (ActionState::EmptyState, Status::Completed, dt),
        }
    }
}

/// Advancing an action only writes transform state: the sprite's children,
/// running actions, identifier and texture come through unchanged.
pub proof fn lemma_advance_keeps(st: StateV, spr: SpriteV, dt: u64)
    ensures
        advance(st, spr, dt).1.children == spr.children,
        advance(st, spr, dt).1.actions == spr.actions,
        advance(st, spr, dt).1.id == spr.id,
        advance(st, spr, dt).1.texture == spr.texture,
    decreases sv_size(st),
{
    match st {
        StateV::SequenceState { steps, next, current } => {
            lemma_sv_size_pos(*current);
            lemma_advance_keeps(*current, spr, dt);
            let stepped = advance(*current, spr, dt);
            if stepped.2 == Status::Running {
            } else if 0 <= next < steps.len() {
                lemma_bind_size(steps[next], stepped.1);
                assert(suffix_size(steps, next) == av_size(steps[next]) + suffix_size(
                    steps,
                    next + 1,
                ));
                lemma_advance_keeps(
                    StateV::SequenceState {
                        steps,
                        next: next + 1,
                        current: Box::new(bind(steps[next], stepped.1)),
                    },
                    stepped.1,
                    stepped.3,
                );
            }
        },
        _ => {},
    }
}

#[via_fn]
proof fn advance_decreases(st: StateV, spr: SpriteV, dt: u64) {
    match st {
        StateV::SequenceState { steps, next, current } => {
            lemma_sv_size_pos(*current);
            if 0 <= next < steps.len() {
                assert forall|sp: SpriteV| #![trigger bind(steps[next], sp)]
                    sv_size(bind(steps[next], sp)) <= av_size(steps[next]) by {
                    lemma_bind_size(steps[next], sp);
                }
                assert(suffix_size(steps, next) == av_size(steps[next]) + suffix_size(
                    steps,
                    next + 1,
                ));
            }
        },
        _ => {},
    }
}

} // verus!
