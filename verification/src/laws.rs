//! Laws of the action machine and of the sprite tree, stated and proved over
//! the models that the executable functions are specified against.

use crate::action::{advance, bind, ActionV, StateV, Status};
use crate::sprite::SpriteV;
use crate::tree::{direct_index, id_count, lookup, nested_find};
use vstd::prelude::*;

verus! {

/// Whether a state consumes time against a duration (everything but the
/// one-shot states, sequences and the terminal state).
pub open spec fn is_timed(st: StateV) -> bool {
    match st {
        StateV::MoveState { .. } => true,
        StateV::RotateState { .. } => true,
        StateV::ScaleState { .. } => true,
        StateV::FadeState { .. } => true,
        StateV::BlinkState { .. } => true,
        StateV::WaitState { .. } => true,
        _ => false,
    }
}

/// The time a timed state has already consumed.
pub open spec fn st_elapsed(st: StateV) -> u64 {
    match st {
        StateV::MoveState { elapsed, .. } => elapsed,
        StateV::RotateState { elapsed, .. } => elapsed,
        StateV::ScaleState { elapsed, .. } => elapsed,
        StateV::FadeState { elapsed, .. } => elapsed,
        StateV::BlinkState { elapsed, .. } => elapsed,
        StateV::WaitState { elapsed, .. } => elapsed,
        _ => 0,
    }
}

/// A timed state's total duration.
pub open spec fn st_duration(st: StateV) -> u64 {
    match st {
        StateV::MoveState { duration, .. } => duration,
        StateV::RotateState { duration, .. } => duration,
        StateV::ScaleState { duration, .. } => duration,
        StateV::FadeState { duration, .. } => duration,
        StateV::BlinkState { duration, .. } => duration,
        StateV::WaitState { duration, .. } => duration,
        _ => 0,
    }
}

/// Exact completion: whenever an interpolating state's elapsed time plus the
/// step reaches its duration, the advance completes and writes the declared
/// end value into the sprite's field exactly — never an extrapolation,
/// whatever the step size or easing.
pub proof fn law_exact_completion(st: StateV, spr: SpriteV, dt: u64)
    requires
        st_elapsed(st) + dt >= st_duration(st),
    ensures
        st matches StateV::MoveState { end_x, end_y, .. } ==> advance(st, spr, dt).1.position == (
            end_x,
            end_y,
        ) && advance(st, spr, dt).2 == Status::Completed,
        st matches StateV::RotateState { end, .. } ==> advance(st, spr, dt).1.rotation == end
            && advance(st, spr, dt).2 == Status::Completed,
        st matches StateV::ScaleState { end_x, end_y, .. } ==> advance(st, spr, dt).1.scale == (
            end_x,
            end_y,
        ) && advance(st, spr, dt).2 == Status::Completed,
        st matches StateV::FadeState { end, .. } ==> advance(st, spr, dt).1.opacity == end
            && advance(st, spr, dt).2 == Status::Completed,
{
}

/// Overflow conservation: a timed state completes exactly when its elapsed
/// time plus the step reaches its duration, and then hands back precisely the
/// surplus `elapsed + dt - duration`; while it still runs, nothing is handed
/// back. (The elapsed sum must be representable; times saturate beyond it.)
pub proof fn law_overflow_conservation(st: StateV, spr: SpriteV, dt: u64)
    requires
        is_timed(st),
        st_elapsed(st) + dt <= u64::MAX,
    ensures
        advance(st, spr, dt).2 == Status::Completed <==> st_elapsed(st) + dt >= st_duration(st),
        advance(st, spr, dt).2 == Status::Completed ==> advance(st, spr, dt).3 == st_elapsed(st)
            + dt - st_duration(st),
        advance(st, spr, dt).2 == Status::Running ==> advance(st, spr, dt).3 == 0,
{
}

/// While a timed action runs, its elapsed time stays within its duration:
/// an advance that reports `Running` leaves a state of the same kind and
/// duration whose elapsed time has grown by the step and still falls short of
/// the duration; reaching the duration always leaves the terminal state.
pub proof fn law_running_stays_within_duration(st: StateV, spr: SpriteV, dt: u64)
    requires
        is_timed(st),
    ensures
        advance(st, spr, dt).2 == Status::Running ==> is_timed(advance(st, spr, dt).0)
            && st_duration(advance(st, spr, dt).0) == st_duration(st) && st_elapsed(
            advance(st, spr, dt).0,
        ) == st_elapsed(st) + dt < st_duration(st),
        advance(st, spr, dt).2 == Status::Completed ==> advance(st, spr, dt).0
            == StateV::EmptyState,
{
}

/// A timed action's duration, where it has one.
pub open spec fn act_duration(a: ActionV) -> Option<u64> {
    match a {
        ActionV::MoveTo(d, _, _) => Some(d),
        ActionV::MoveBy(d, _, _) => Some(d),
        ActionV::RotateTo(d, _) => Some(d),
        ActionV::RotateBy(d, _) => Some(d),
        ActionV::ScaleTo(d, _, _) => Some(d),
        ActionV::ScaleBy(d, _, _) => Some(d),
        ActionV::Blink(d, _) => Some(d),
        ActionV::FadeIn(d) => Some(d),
        ActionV::FadeOut(d) => Some(d),
        ActionV::FadeTo(d, _) => Some(d),
        ActionV::Wait(d) => Some(d),
        _ => None,
    }
}

/// Binding a timed action yields a timed state with nothing consumed yet and
/// the action's own duration.
pub proof fn law_bind_timed(a: ActionV, spr: SpriteV)
    requires
        act_duration(a) is Some,
    ensures
        is_timed(bind(a, spr)),
        st_elapsed(bind(a, spr)) == 0,
        st_duration(bind(a, spr)) == act_duration(a).unwrap(),
{
}

/// Overflow conservation through a sequence: a fresh two-step sequence of
/// timed actions, advanced in one call by exactly the sum of the two
/// durations, completes both steps within that call and leaves no residual
/// overflow.
pub proof fn law_sequence_consumes_exactly(a1: ActionV, a2: ActionV, spr: SpriteV, dt: u64)
    requires
        act_duration(a1) is Some,
        act_duration(a2) is Some,
        dt == act_duration(a1).unwrap() + act_duration(a2).unwrap(),
    ensures
        advance(bind(ActionV::Sequence(seq![a1, a2]), spr), spr, dt).2 == Status::Completed,
        advance(bind(ActionV::Sequence(seq![a1, a2]), spr), spr, dt).3 == 0,
{
    let steps = seq![a1, a2];
    let st = bind(ActionV::Sequence(steps), spr);
    let first = bind(a1, spr);
    assert(st == StateV::SequenceState { steps, next: 1, current: Box::new(first) });
    law_bind_timed(a1, spr);
    law_overflow_conservation(first, spr, dt);
    let stepped = advance(first, spr, dt);
    assert(stepped.2 == Status::Completed);
    assert(stepped.3 == act_duration(a2).unwrap());
    let second = bind(a2, stepped.1);
    law_bind_timed(a2, stepped.1);
    law_overflow_conservation(second, stepped.1, stepped.3);
    let inner = StateV::SequenceState { steps, next: 2, current: Box::new(second) };
    assert(advance(second, stepped.1, stepped.3).2 == Status::Completed);
    assert(advance(second, stepped.1, stepped.3).3 == 0);
    assert(advance(st, spr, dt) == advance(inner, stepped.1, stepped.3));
}

/// Idempotent binding: binding reads the sprite and never writes it, so two
/// actions bound against one unmutated sprite value capture identical start
/// values whichever is bound first — binding from equal sprite values is the
/// same function of the action.
pub proof fn law_bind_pure(a: ActionV, b: ActionV, s1: SpriteV, s2: SpriteV)
    requires
        s1 == s2,
    ensures
        bind(a, s1) == bind(a, s2),
        bind(b, s1) == bind(b, s2),
{
}

/// An identifier counted nowhere in a forest is found nowhere in it.
pub proof fn lemma_count_zero_not_found(ss: Seq<SpriteV>, id: crate::sprite::SpriteId, i: int)
    requires
        id_count(ss, id, i) == 0,
    ensures
        direct_index(ss, id, i) is None,
        nested_find(ss, id, i) is None,
        i == 0 ==> lookup(ss, id) is None,
    decreases ss, ss.len() - i,
{
    if 0 <= i < ss.len() {
        lemma_count_zero_not_found(ss[i].children, id, 0);
        lemma_count_zero_not_found(ss, id, i + 1);
    }
}

/// Tree lookup after adding: a sprite appended to a forest that held its
/// identifier nowhere is exactly what lookup then finds for that identifier.
pub proof fn law_add_then_lookup(ss: Seq<SpriteV>, spr: SpriteV)
    requires
        id_count(ss, spr.id, 0) == 0,
    ensures
        lookup(ss.push(spr), spr.id) == Some(spr),
{
    lemma_count_zero_not_found(ss, spr.id, 0);
    lemma_direct_index_push(ss, spr, 0);
}

/// Appending to a forest whose own sprites miss an identifier makes the
/// appended sprite the first direct hit exactly when it carries it.
proof fn lemma_direct_index_push(ss: Seq<SpriteV>, spr: SpriteV, i: int)
    requires
        0 <= i <= ss.len(),
        direct_index(ss, spr.id, i) is None,
    ensures
        direct_index(ss.push(spr), spr.id, i) == Some(ss.len() as int),
    decreases ss.len() - i,
{
    if i < ss.len() {
        lemma_direct_index_push(ss, spr, i + 1);
    }
}

/// Counting from position `k + 1` is counting the forest without its `j`-th
/// sprite from position `k`, for `k > j` shifted down by the removal.
proof fn lemma_count_shift(ss: Seq<SpriteV>, id: crate::sprite::SpriteId, j: int, k: int)
    requires
        0 <= j < ss.len(),
        j <= k,
    ensures
        id_count(ss.remove(j), id, k) == id_count(ss, id, k + 1),
    decreases ss.len() - k,
{
    if k < ss.len() - 1 {
        lemma_count_shift(ss, id, j, k + 1);
        assert(ss.remove(j)[k] == ss[k + 1]);
    }
}

/// Removing the `j`-th sprite of a forest takes away exactly that sprite's
/// own contribution to an identifier's count.
pub proof fn lemma_count_remove(ss: Seq<SpriteV>, id: crate::sprite::SpriteId, j: int, i: int)
    requires
        0 <= i <= j < ss.len(),
    ensures
        id_count(ss, id, i) == id_count(ss.remove(j), id, i) + (if ss[j].id == id {
            1nat
        } else {
            0nat
        }) + id_count(ss[j].children, id, 0),
    decreases j - i,
{
    if i < j {
        lemma_count_remove(ss, id, j, i + 1);
        assert(ss.remove(j)[i] == ss[i]);
    } else {
        lemma_count_shift(ss, id, j, j);
    }
}

/// Tree removal: removing the top-level sprite that carries an identifier,
/// when the forest holds that identifier exactly once, leaves a forest where
/// lookup finds it nowhere.
pub proof fn law_remove_then_lookup(ss: Seq<SpriteV>, id: crate::sprite::SpriteId, j: int)
    requires
        0 <= j < ss.len(),
        ss[j].id == id,
        id_count(ss, id, 0) == 1,
    ensures
        lookup(ss.remove(j), id) is None,
{
    lemma_count_remove(ss, id, j, 0);
    lemma_count_zero_not_found(ss.remove(j), id, 0);
}

/// Tree removal reaches descendants: removing a top-level sprite also
/// invalidates lookups of any identifier that occurred only inside its
/// subtree.
pub proof fn law_remove_invalidates_descendants(
    ss: Seq<SpriteV>,
    top: crate::sprite::SpriteId,
    desc: crate::sprite::SpriteId,
    j: int,
)
    requires
        0 <= j < ss.len(),
        ss[j].id == top,
        lookup(ss[j].children, desc) is Some,
        id_count(ss, desc, 0) == id_count(ss[j].children, desc, 0),
    ensures
        lookup(ss.remove(j), desc) is None,
{
    lemma_count_remove(ss, desc, j, 0);
    lemma_count_zero_not_found(ss.remove(j), desc, 0);
}

} // verus!
