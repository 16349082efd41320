//! The sprite tree: identifier-addressed lookup, mutation and bookkeeping
//! over forests of sprites, shared by [`crate::scene::Scene`] and by nested
//! sprites.
//!
//! Lookup goes breadth-first-by-level in the original's order: all sprites of
//! the forest itself first, then, sprite by sprite, the whole subtree under
//! each.

use crate::action::{act_view, advance, bind, lemma_states_view, state_view, states_view, Action,
    ActionState, ActionV, StateV, Status};
use crate::easing::sat_add_time;
use crate::sprite::{sprite_view, sprites_view, Sprite, SpriteId, SpriteV, Texture};
use vstd::prelude::*;

verus! {

/// The index of the first sprite of the forest itself (not of a subtree)
/// that carries `id`, scanning from `i` on.
pub open spec fn direct_index(ss: Seq<SpriteV>, id: SpriteId, i: int) -> Option<int>
    decreases ss.len() - i,
{
    if 0 <= i < ss.len() {
        if ss[i].id == id {
            Some(i)
        } else {
            direct_index(ss, id, i + 1)
        }
    } else {
        None
    }
}

/// The first sprite carrying `id` in the forest, direct sprites first, then
/// each direct sprite's subtree in order; `None` when `id` is nowhere in the
/// forest.
pub open spec fn lookup(ss: Seq<SpriteV>, id: SpriteId) -> Option<SpriteV>
    decreases ss, ss.len(), 1int,
{
    match direct_index(ss, id, 0) {
        Some(i) => Some(ss[i]),
        None => nested_find(ss, id, 0),
    }
}

/// The first hit for `id` in the subtrees under the sprites of `ss`, from
/// `i` on.
pub open spec fn nested_find(ss: Seq<SpriteV>, id: SpriteId, i: int) -> Option<SpriteV>
    decreases ss, ss.len() - i, 0int,
{
    if 0 <= i < ss.len() {
        match lookup(ss[i].children, id) {
            Some(c) => Some(c),
            None => nested_find(ss, id, i + 1),
        }
    } else {
        None
    }
}

/// The forest with the sprite that `lookup` finds for `id` replaced by `n`;
/// the forest unchanged when `id` is nowhere in it.
pub open spec fn replace(ss: Seq<SpriteV>, id: SpriteId, n: SpriteV) -> Seq<SpriteV>
    decreases ss, ss.len(), 1int,
{
    match direct_index(ss, id, 0) {
        Some(i) => ss.update(i, n),
        None => nested_replace(ss, id, n, 0),
    }
}

/// `replace` within the subtrees under the sprites of `ss`, from `i` on.
pub open spec fn nested_replace(ss: Seq<SpriteV>, id: SpriteId, n: SpriteV, i: int) -> Seq<SpriteV>
    decreases ss, ss.len() - i, 0int,
{
    if 0 <= i < ss.len() {
        if lookup(ss[i].children, id) is Some {
            ss.update(i, SpriteV { children: replace(ss[i].children, id, n), ..ss[i] })
        } else {
            nested_replace(ss, id, n, i + 1)
        }
    } else {
        ss
    }
}

/// How many sprites anywhere in the forest, from the `i`-th of the forest
/// itself on, carry `id`. Global uniqueness of identifiers is the statement
/// `id_count(ss, id, 0) <= 1` for every `id`.
pub open spec fn id_count(ss: Seq<SpriteV>, id: SpriteId, i: int) -> nat
    decreases ss, ss.len() - i,
{
    if 0 <= i < ss.len() {
        (if ss[i].id == id {
            1nat
        } else {
            0nat
        }) + id_count(ss[i].children, id, 0) + id_count(ss, id, i + 1)
    } else {
        0
    }
}

/// The first sprite of the forest (not of subtrees) carrying `id`, found from
/// the front and returned with its index.
pub(crate) fn direct_search(v: &Vec<Sprite>, id: SpriteId) -> (r: Option<usize>)
    ensures
        match r {
            Some(j) => direct_index(sprites_view(v@), id, 0) == Some(j as int) && j < v@.len()
                && v@[j as int].id == id,
            None => direct_index(sprites_view(v@), id, 0) is None,
        },
{
    proof {
        crate::sprite::lemma_sprites_view(v@);
    }
    let ghost sv = sprites_view(v@);
    let mut i: usize = 0;
    while i < v.len()
        invariant
            i <= v@.len(),
            sv == sprites_view(v@),
            sv.len() == v@.len(),
            forall|j: int| 0 <= j < v@.len() ==> sv[j] == sprite_view(v@[j]),
            direct_index(sv, id, 0) == direct_index(sv, id, i as int),
        decreases v@.len() - i,
    {
        if v[i].id == id {
            return Some(i);
        }
        i = i + 1;
    }
    None
}

/// The first sprite carrying `id` anywhere in the forest, in `lookup`'s
/// order.
pub fn forest_child(v: &Vec<Sprite>, id: SpriteId) -> (r: Option<&Sprite>)
    ensures
        match r {
            Some(s) => lookup(sprites_view(v@), id) == Some(sprite_view(*s)),
            None => lookup(sprites_view(v@), id) is None,
        },
    decreases v@,
{
    proof {
        crate::sprite::lemma_sprites_view(v@);
    }
    let ghost sv = sprites_view(v@);
    match direct_search(v, id) {
        Some(j) => Some(&v[j]),
        None => {
            let mut i: usize = 0;
            while i < v.len()
                invariant
                    i <= v@.len(),
                    sv == sprites_view(v@),
                    sv.len() == v@.len(),
                    forall|j: int| 0 <= j < v@.len() ==> sv[j] == sprite_view(v@[j]),
                    direct_index(sv, id, 0) is None,
                    nested_find(sv, id, 0) == nested_find(sv, id, i as int),
                decreases v@.len() - i,
            {
                let found = forest_child(&v[i].children, id);
                if let Some(c) = found {
                    return Some(c);
                }
                i = i + 1;
            }
            None
        },
    }
}

/// Advancing a sprite's actions, in list order against the sprite as the
/// previous action left it: the states still running (each advanced), and
/// the resulting sprite. Completed states drop out of the list.
pub open spec fn acts_fold(acts: Seq<StateV>, spr: SpriteV, dt: u64, i: int) -> (Seq<StateV>, SpriteV)
    decreases acts.len() - i,
{
    if 0 <= i < acts.len() {
        let stepped = advance(acts[i], spr, dt);
        let rest = acts_fold(acts, stepped.1, dt, i + 1);
        if stepped.2 == Status::Running {
            (seq![stepped.0] + rest.0, rest.1)
        } else {
            rest
        }
    } else {
        (Seq::empty(), spr)
    }
}

/// `spr` without children or actions: what its own actions run against while
/// a tick is in progress.
pub open spec fn stripped(spr: SpriteV) -> SpriteV {
    SpriteV { children: Seq::empty(), actions: Seq::empty(), ..spr }
}

/// One tick of a whole sprite: its own actions advance first, in order, each
/// against the sprite as the previous one left it and with completed ones
/// dropped; then every child updates the same way, in order.
pub open spec fn sprite_update(spr: SpriteV, dt: u64) -> SpriteV
    decreases spr, 0int,
{
    let folded = acts_fold(spr.actions, stripped(spr), dt, 0);
    SpriteV {
        children: forest_update(spr.children, dt, 0),
        actions: folded.0,
        ..folded.1
    }
}

/// One tick of every sprite of the forest from `i` on, in order.
pub open spec fn forest_update(ss: Seq<SpriteV>, dt: u64, i: int) -> Seq<SpriteV>
    decreases ss, ss.len() - i,
{
    if 0 <= i < ss.len() {
        seq![sprite_update(ss[i], dt)] + forest_update(ss, dt, i + 1)
    } else {
        Seq::empty()
    }
}

/// `spr` with one more running action: `a` bound against `spr`'s current
/// values.
pub open spec fn run_action_on(spr: SpriteV, a: ActionV) -> SpriteV {
    SpriteV { actions: spr.actions.push(bind(a, spr)), ..spr }
}

/// How many actions are running anywhere in the subtree of `spr`.
pub open spec fn tree_count(spr: SpriteV) -> nat
    decreases spr, 0int,
{
    spr.actions.len() + forest_count(spr.children, 0)
}

/// How many actions are running in the subtrees of the forest from `i` on.
pub open spec fn forest_count(ss: Seq<SpriteV>, i: int) -> nat
    decreases ss, ss.len() - i,
{
    if 0 <= i < ss.len() {
        tree_count(ss[i]) + forest_count(ss, i + 1)
    } else {
        0
    }
}

/// `n` capped at the largest representable count.
pub open spec fn capped(n: nat) -> u64 {
    if n > u64::MAX {
        u64::MAX
    } else {
        n as u64
    }
}

/// Viewing commutes with appending a state to a list.
pub proof fn lemma_states_view_push(s: Seq<ActionState>, x: ActionState)
    ensures
        states_view(s.push(x)) == states_view(s).push(state_view(x)),
{
    lemma_states_view(s);
    lemma_states_view(s.push(x));
    assert(states_view(s.push(x)) =~= states_view(s).push(state_view(x)));
}

/// Viewing commutes with removing one sprite of a list.
pub proof fn lemma_sprites_view_remove(s: Seq<Sprite>, j: int)
    requires
        0 <= j < s.len(),
    ensures
        sprites_view(s.remove(j)) == sprites_view(s).remove(j),
{
    crate::sprite::lemma_sprites_view(s);
    crate::sprite::lemma_sprites_view(s.remove(j));
    assert(sprites_view(s.remove(j)) =~= sprites_view(s).remove(j));
}

/// Viewing commutes with replacing one sprite of a list.
pub proof fn lemma_sprites_view_update(s: Seq<Sprite>, j: int, x: Sprite)
    requires
        0 <= j < s.len(),
    ensures
        sprites_view(s.update(j, x)) == sprites_view(s).update(j, sprite_view(x)),
{
    crate::sprite::lemma_sprites_view(s);
    crate::sprite::lemma_sprites_view(s.update(j, x));
    assert(sprites_view(s.update(j, x)) =~= sprites_view(s).update(j, sprite_view(x)));
}

/// Viewing commutes with appending a sprite to a list.
pub proof fn lemma_sprites_view_push(s: Seq<Sprite>, x: Sprite)
    ensures
        sprites_view(s.push(x)) == sprites_view(s).push(sprite_view(x)),
{
    crate::sprite::lemma_sprites_view(s);
    crate::sprite::lemma_sprites_view(s.push(x));
    assert(sprites_view(s.push(x)) =~= sprites_view(s).push(sprite_view(x)));
}

/// The first sprite carrying `id` anywhere in the forest, in `lookup`'s
/// order, borrowed for mutation: the forest ends as `replace` describes,
/// with the borrowed sprite as the caller leaves it.
pub fn forest_child_mut(v: &mut Vec<Sprite>, id: SpriteId) -> (r: Option<&mut Sprite>)
    ensures
        lookup(sprites_view(old(v)@), id) is None ==> r.is_none() && *final(v) == *old(v),
        lookup(sprites_view(old(v)@), id) is Some ==> r.is_some() && sprite_view(*r.unwrap())
            == lookup(sprites_view(old(v)@), id).unwrap() && sprites_view(final(v)@) == replace(
            sprites_view(old(v)@),
            id,
            sprite_view(*final(r.unwrap())),
        ),
    decreases old(v)@,
{
    proof {
        crate::sprite::lemma_sprites_view(old(v)@);
    }
    let ghost sv = sprites_view(old(v)@);
    let direct = direct_search(v, id);
    if let Some(j) = direct {
        proof {
            lemma_sprites_view_update(old(v)@, j as int, old(v)@[j as int]);
        }
        let m = &mut v[j];
        proof {
            lemma_sprites_view_update(old(v)@, j as int, *final(m));
        }
        return Some(m);
    }
    let mut i: usize = 0;
    while i < v.len()
        invariant
            i <= v@.len(),
            *v == *old(v),
            sv == sprites_view(old(v)@),
            sv.len() == v@.len(),
            forall|j: int| 0 <= j < v@.len() ==> sv[j] == sprite_view(v@[j]),
            direct_index(sv, id, 0) is None,
            nested_find(sv, id, 0) == nested_find(sv, id, i as int),
            forall|n: SpriteV| #![trigger nested_replace(sv, id, n, 0)]
                nested_replace(sv, id, n, 0) == nested_replace(sv, id, n, i as int),
        decreases v@.len() - i,
    {
        let hit = forest_child(&v[i].children, id).is_some();
        if hit {
            proof {
                assert(decreases_to!(old(v)@ => old(v)@[i as int]));
                assert forall|x: Sprite| #![trigger sprites_view(old(v)@.update(i as int, x))]
                    sprites_view(old(v)@.update(i as int, x)) == sv.update(
                    i as int,
                    sprite_view(x),
                ) by {
                    lemma_sprites_view_update(old(v)@, i as int, x);
                }
                assert(sv[i as int].children == sprites_view(v@[i as int].children@));
                assert(lookup(sv, id) == lookup(sv[i as int].children, id));
                assert forall|n: SpriteV| #![trigger replace(sv, id, n)] replace(sv, id, n)
                    == sv.update(
                    i as int,
                    SpriteV { children: replace(sv[i as int].children, id, n), ..sv[i as int] },
                ) by {
                    assert(replace(sv, id, n) == nested_replace(sv, id, n, 0));
                    assert(nested_replace(sv, id, n, 0) == nested_replace(sv, id, n, i as int));
                    assert(nested_replace(sv, id, n, i as int) == sv.update(
                        i as int,
                        SpriteV { children: replace(sv[i as int].children, id, n), ..sv[i as int] },
                    ));
                }
            }
            let inner = &mut v[i];
            let m = forest_child_mut(&mut inner.children, id);
            return m;
        }
        i = i + 1;
    }
    None
}

impl Sprite {
    /// Appends `sprite` as a direct child and hands back its identifier.
    pub fn add_child(&mut self, sprite: Sprite) -> (id: SpriteId)
        ensures
            id == sprite.id,
            sprite_view(*final(self)) == (SpriteV {
                children: sprite_view(*old(self)).children.push(sprite_view(sprite)),
                ..sprite_view(*old(self))
            }),
    {
        proof {
            lemma_sprites_view_push(old(self).children@, sprite);
        }
        let id = sprite.id;
        self.children.push(sprite);
        id
    }

    /// The first sprite carrying `id` among this sprite's children, direct
    /// children first, then their subtrees in order; `None` when `id` is
    /// nowhere below this sprite.
    pub fn child(&self, id: SpriteId) -> (r: Option<&Sprite>)
        ensures
            match r {
                Some(s) => lookup(sprite_view(*self).children, id) == Some(sprite_view(*s)),
                None => lookup(sprite_view(*self).children, id) is None,
            },
    {
        forest_child(&self.children, id)
    }

    /// Like [`Sprite::child`], borrowed for mutation: afterwards the children
    /// stand as `replace` describes, with the borrowed sprite as the caller
    /// leaves it.
    pub fn child_mut(&mut self, id: SpriteId) -> (r: Option<&mut Sprite>)
        ensures
            lookup(sprite_view(*old(self)).children, id) is None ==> r.is_none() && *final(self)
                == *old(self),
            lookup(sprite_view(*old(self)).children, id) is Some ==> r.is_some() && sprite_view(
                *r.unwrap(),
            ) == lookup(sprite_view(*old(self)).children, id).unwrap() && sprite_view(*final(self))
                == (SpriteV {
                children: replace(
                    sprite_view(*old(self)).children,
                    id,
                    sprite_view(*final(r.unwrap())),
                ),
                ..sprite_view(*old(self))
            }),
    {
        forest_child_mut(&mut self.children, id)
    }
}

/// One tick of an owned sprite: the heart of [`Sprite::update`].
pub(crate) fn update_sprite(s: Sprite, dt: u64) -> (r: Sprite)
    ensures
        sprite_view(r) == sprite_update(sprite_view(s), dt),
    decreases s,
{
    let ghost sv = sprite_view(s);
    let Sprite {
        anchor,
        position,
        rotation,
        scale,
        flip_x,
        flip_y,
        visible,
        opacity,
        id,
        texture,
        children,
        actions,
    } = s;
    proof {
        assert(children@ == s.children@);
        assert(actions@ == s.actions@);
        lemma_states_view(actions@);
        crate::sprite::lemma_sprites_view(children@);
    }
    let mut work = Sprite {
        anchor,
        position,
        rotation,
        scale,
        flip_x,
        flip_y,
        visible,
        opacity,
        id,
        texture,
        children: Vec::new(),
        actions: Vec::new(),
    };
    let ghost w0 = sprite_view(work);
    let ghost sa = states_view(actions@);
    proof {
        assert(w0 == stripped(sv));
    }
    let mut retained: Vec<ActionState> = Vec::new();
    let mut i: usize = 0;
    while i < actions.len()
        invariant
            i <= actions@.len(),
            sa == states_view(actions@),
            sa.len() == actions@.len(),
            forall|j: int| 0 <= j < actions@.len() ==> sa[j] == state_view(actions@[j]),
            acts_fold(sa, w0, dt, 0).0 == states_view(retained@) + acts_fold(
                sa,
                sprite_view(work),
                dt,
                i as int,
            ).0,
            acts_fold(sa, w0, dt, 0).1 == acts_fold(sa, sprite_view(work), dt, i as int).1,
            sprite_view(work).children == Seq::<SpriteV>::empty(),
            sprite_view(work).id == sv.id,
            sprite_view(work).texture == sv.texture,
        decreases actions@.len() - i,
    {
        let ghost before = sprite_view(work);
        proof {
            crate::action::lemma_advance_keeps(sa[i as int], before, dt);
        }
        let stepped = actions[i].update(&mut work, dt);
        let (ns, status, _overflow) = stepped;
        match status {
            Status::Running => {
                proof {
                    lemma_states_view_push(retained@, ns);
                    assert(states_view(retained@.push(ns)) + acts_fold(
                        sa,
                        sprite_view(work),
                        dt,
                        i as int + 1,
                    ).0 =~= states_view(retained@) + (seq![state_view(ns)] + acts_fold(
                        sa,
                        sprite_view(work),
                        dt,
                        i as int + 1,
                    ).0));
                }
                retained.push(ns);
            },
            Status::Completed => {},
        }
        i = i + 1;
    }
    proof {
        assert(acts_fold(sa, w0, dt, 0).0 =~= states_view(retained@));
    }
    work.actions = retained;
    let ghost cs0 = children@;
    let mut rest = children;
    let mut out: Vec<Sprite> = Vec::new();
    let ghost mut done: int = 0;
    while rest.len() > 0
        invariant
            0 <= done,
            done + rest@.len() == cs0.len(),
            rest@ == cs0.subrange(done, cs0.len() as int),
            cs0 == s.children@,
            sprites_view(cs0).len() == cs0.len(),
            forall|j: int| 0 <= j < cs0.len() ==> sprites_view(cs0)[j] == sprite_view(cs0[j]),
            sprites_view(out@) + forest_update(sprites_view(cs0), dt, done) == forest_update(
                sprites_view(cs0),
                dt,
                0,
            ),
            sprite_view(work) == (SpriteV {
                children: Seq::empty(),
                actions: acts_fold(sv.actions, stripped(sv), dt, 0).0,
                ..acts_fold(sv.actions, stripped(sv), dt, 0).1
            }),
        decreases rest@.len(),
    {
        let c = rest.remove(0);
        proof {
            assert(c == s.children@[done]);
            assert(decreases_to!(s => s.children@[done]));
            assert(rest@ =~= cs0.subrange(done + 1, cs0.len() as int));
        }
        let c2 = update_sprite(c, dt);
        proof {
            lemma_sprites_view_push(out@, c2);
            assert(sprites_view(out@.push(c2)) + forest_update(
                sprites_view(cs0),
                dt,
                done + 1,
            ) =~= sprites_view(out@) + (seq![sprite_update(sprite_view(c), dt)] + forest_update(
                sprites_view(cs0),
                dt,
                done + 1,
            )));
        }
        out.push(c2);
        proof {
            done = done + 1;
        }
    }
    proof {
        assert(sprites_view(out@) =~= sprites_view(out@) + forest_update(
            sprites_view(cs0),
            dt,
            done,
        ));
    }
    work.children = out;
    work
}

impl Sprite {
    /// Pushes a fresh running state for `action`, bound against this
    /// sprite's current values; the action itself is only read.
    pub fn run_action(&mut self, action: &Action)
        ensures
            sprite_view(*final(self)) == run_action_on(
                sprite_view(*old(self)),
                act_view(*action),
            ),
    {
        let st = action.to_state(self);
        proof {
            lemma_states_view_push(self.actions@, st);
        }
        self.actions.push(st);
    }

    /// One tick: advances every running action of this sprite and of every
    /// sprite below it, in traversal order, dropping completed ones — exactly
    /// `sprite_update` of the model.
    pub fn update(&mut self, dt: u64)
        ensures
            sprite_view(*final(self)) == sprite_update(sprite_view(*old(self)), dt),
    {
        let mut tmp = Sprite {
            anchor: (0, 0),
            position: (0, 0),
            rotation: 0,
            scale: (0, 0),
            flip_x: false,
            flip_y: false,
            visible: false,
            opacity: 0,
            id: SpriteId(0),
            texture: Texture { handle: 0, width: 0, height: 0 },
            children: Vec::new(),
            actions: Vec::new(),
        };
        core::mem::swap(self, &mut tmp);
        let updated = update_sprite(tmp, dt);
        *self = updated;
    }

    /// How many actions are running on this sprite and on every sprite below
    /// it, capped at the largest representable count.
    pub fn running_actions(&self) -> (r: u64)
        ensures
            r == capped(tree_count(sprite_view(*self))),
        decreases *self,
    {
        proof {
            crate::sprite::lemma_sprites_view(self.children@);
            lemma_states_view(self.actions@);
        }
        let ghost cv = sprites_view(self.children@);
        let mut acc: u64 = self.actions.len() as u64;
        let mut j: usize = 0;
        while j < self.children.len()
            invariant
                j <= self.children@.len(),
                cv == sprites_view(self.children@),
                cv.len() == self.children@.len(),
                forall|k: int| 0 <= k < cv.len() ==> cv[k] == sprite_view(self.children@[k]),
                forest_count(cv, j as int) <= forest_count(cv, 0),
                acc == capped(
                    (self.actions@.len() + forest_count(cv, 0) - forest_count(cv, j as int)) as nat,
                ),
            decreases self.children@.len() - j,
        {
            proof {
                assert(decreases_to!(*self => self.children@[j as int]));
            }
            let c = self.children[j].running_actions();
            acc = sat_add_time(acc, c);
            j = j + 1;
        }
        acc
    }
}

} // verus!
