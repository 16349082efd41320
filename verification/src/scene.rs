//! The scene: an identifier-addressable forest of sprites, driving lookup,
//! per-tick action updates and removal at the top level.

use crate::action::{act_view, Action};
use crate::sprite::{sprite_view, sprites_view, Sprite, SpriteId, SpriteV};
use crate::easing::sat_add_time;
use crate::tree::{capped, direct_index, direct_search, forest_child, forest_child_mut,
    forest_count, forest_update, lemma_sprites_view_push, lemma_sprites_view_remove, lookup,
    replace, run_action_on, update_sprite};
use vstd::prelude::*;

verus! {

/// An ordered forest of top-level sprites. The model of a scene is the
/// sequence of its top-level sprites' models, in order.
#[derive(Debug)]
pub struct Scene {
    pub children: Vec<Sprite>,
}

impl View for Scene {
    type V = Seq<SpriteV>;

    open spec fn view(&self) -> Seq<SpriteV> {
        sprites_view(self.children@)
    }
}

impl Scene {
    /// An empty scene.
    pub fn new() -> (s: Scene)
        ensures
            s@ == Seq::<SpriteV>::empty(),
    {
        Scene { children: Vec::new() }
    }

    /// Appends `sprite` at the top level and hands back its identifier.
    pub fn add_child(&mut self, sprite: Sprite) -> (id: SpriteId)
        ensures
            id == sprite.id,
            final(self)@ == old(self)@.push(sprite_view(sprite)),
    {
        proof {
            lemma_sprites_view_push(self.children@, sprite);
        }
        let id = sprite.id;
        self.children.push(sprite);
        id
    }

    /// The first sprite carrying `id`: all top-level sprites are tried first,
    /// then each top-level sprite's subtree in order. `None` when `id` is
    /// nowhere in the scene.
    pub fn child(&self, id: SpriteId) -> (r: Option<&Sprite>)
        ensures
            match r {
                Some(s) => lookup(self@, id) == Some(sprite_view(*s)),
                None => lookup(self@, id) is None,
            },
    {
        forest_child(&self.children, id)
    }

    /// Like [`Scene::child`], borrowed for mutation: afterwards the scene
    /// stands as `replace` describes, with the borrowed sprite as the caller
    /// leaves it.
    pub fn child_mut(&mut self, id: SpriteId) -> (r: Option<&mut Sprite>)
        ensures
            lookup(old(self)@, id) is None ==> r.is_none() && *final(self) == *old(self),
            lookup(old(self)@, id) is Some ==> r.is_some() && sprite_view(*r.unwrap()) == lookup(
                old(self)@,
                id,
            ).unwrap() && final(self)@ == replace(old(self)@, id, sprite_view(*final(r.unwrap()))),
    {
        forest_child_mut(&mut self.children, id)
    }

    /// Removes the top-level sprite carrying `id`, with its whole subtree and
    /// every action running anywhere in it, and hands it back. Only the top
    /// level is searched; an absent identifier is a no-op.
    pub fn remove_child(&mut self, id: SpriteId) -> (r: Option<Sprite>)
        ensures
            direct_index(old(self)@, id, 0) is None ==> r.is_none() && *final(self) == *old(self),
            direct_index(old(self)@, id, 0) is Some ==> ({
                let j = direct_index(old(self)@, id, 0).unwrap();
                r.is_some() && sprite_view(r.unwrap()) == old(self)@[j] && final(self)@ == old(
                    self,
                )@.remove(j)
            }),
    {
        match direct_search(&self.children, id) {
            Some(j) => {
                proof {
                    crate::sprite::lemma_sprites_view(self.children@);
                    lemma_sprites_view_remove(self.children@, j as int);
                }
                Some(self.children.remove(j))
            },
            None => None,
        }
    }

    /// Binds `action` to the sprite carrying `id` — looked up as
    /// [`Scene::child`] does — and starts it running there. `true` when the
    /// sprite was found; an absent identifier is a no-op.
    pub fn run_action(&mut self, id: SpriteId, action: &Action) -> (r: bool)
        ensures
            lookup(old(self)@, id) is None ==> r == false && *final(self) == *old(self),
            lookup(old(self)@, id) is Some ==> r == true && final(self)@ == replace(
                old(self)@,
                id,
                run_action_on(lookup(old(self)@, id).unwrap(), act_view(*action)),
            ),
    {
        let found = forest_child_mut(&mut self.children, id);
        match found {
            Some(m) => {
                m.run_action(action);
                true
            },
            None => false,
        }
    }

    /// One tick: advances every running action of every sprite in the scene,
    /// in traversal order, dropping completed ones.
    pub fn update(&mut self, dt: u64)
        ensures
            final(self)@ == forest_update(old(self)@, dt, 0),
    {
        let ghost cs0 = self.children@;
        proof {
            crate::sprite::lemma_sprites_view(cs0);
        }
        let mut rest: Vec<Sprite> = Vec::new();
        core::mem::swap(&mut rest, &mut self.children);
        let mut out: Vec<Sprite> = Vec::new();
        let ghost mut done: int = 0;
        while rest.len() > 0
            invariant
                0 <= done,
                done + rest@.len() == cs0.len(),
                rest@ == cs0.subrange(done, cs0.len() as int),
                sprites_view(cs0).len() == cs0.len(),
                forall|j: int| 0 <= j < cs0.len() ==> sprites_view(cs0)[j] == sprite_view(cs0[j]),
                sprites_view(out@) + forest_update(sprites_view(cs0), dt, done) == forest_update(
                    sprites_view(cs0),
                    dt,
                    0,
                ),
            decreases rest@.len(),
        {
            let c = rest.remove(0);
            proof {
                assert(c == cs0[done]);
                assert(rest@ =~= cs0.subrange(done + 1, cs0.len() as int));
            }
            let c2 = update_sprite(c, dt);
            proof {
                crate::tree::lemma_sprites_view_push(out@, c2);
                assert(sprites_view(out@.push(c2)) + forest_update(
                    sprites_view(cs0),
                    dt,
                    done + 1,
                ) =~= sprites_view(out@) + (seq![crate::tree::sprite_update(
                    sprite_view(c),
                    dt,
                )] + forest_update(sprites_view(cs0), dt, done + 1)));
            }
            out.push(c2);
            proof {
                done = done + 1;
            }
        }
        proof {
            assert(sprites_view(out@) =~= sprites_view(out@) + forest_update(
                sprites_view(cs0),
                dt,
                done,
            ));
        }
        self.children = out;
    }

    /// How many actions are running anywhere in the scene, capped at the
    /// largest representable count.
    pub fn running_actions(&self) -> (r: u64)
        ensures
            r == capped(forest_count(self@, 0)),
    {
        proof {
            crate::sprite::lemma_sprites_view(self.children@);
        }
        let ghost cv = self@;
        let mut acc: u64 = 0;
        let mut j: usize = 0;
        while j < self.children.len()
            invariant
                j <= self.children@.len(),
                cv == sprites_view(self.children@),
                cv.len() == self.children@.len(),
                forall|k: int| 0 <= k < cv.len() ==> cv[k] == sprite_view(self.children@[k]),
                forest_count(cv, j as int) <= forest_count(cv, 0),
                acc == capped((forest_count(cv, 0) - forest_count(cv, j as int)) as nat),
            decreases self.children@.len() - j,
        {
            let c = self.children[j].running_actions();
            acc = sat_add_time(acc, c);
            j = j + 1;
        }
        acc
    }
}

} // verus!
