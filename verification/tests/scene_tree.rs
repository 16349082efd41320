use sprite_scene::action::Action;
use sprite_scene::easing::UNIT;
use sprite_scene::scene::Scene;
use sprite_scene::sprite::{Sprite, Texture};

fn tex(handle: u64) -> Texture {
    Texture { handle, width: 100, height: 50 }
}

// Adding a sprite and looking its identifier up finds that very sprite;
// identifiers are fresh per sprite.
#[test]
fn add_then_lookup() {
    let mut scene = Scene::new();
    let mut a = Sprite::from_texture(tex(1));
    a.set_position(7 * UNIT, 0);
    let b = Sprite::from_texture(tex(2));
    let id_a = scene.add_child(a);
    let id_b = scene.add_child(b);
    assert_ne!(id_a, id_b);
    let found = scene.child(id_a).expect("the added sprite is found");
    assert_eq!(found.position(), (7 * UNIT, 0));
    assert_eq!(found.texture().handle, 1);
    assert_eq!(scene.child(id_b).unwrap().texture().handle, 2);
}

// Lookup descends into nested sprites; removal of a nested identifier is a
// top-level no-op; removing the parent invalidates the descendants' lookups.
#[test]
fn nested_lookup_and_removal() {
    let mut scene = Scene::new();
    let mut parent = Sprite::from_texture(tex(1));
    let mut child = Sprite::from_texture(tex(2));
    child.set_position(3 * UNIT, 3 * UNIT);
    let child_id = parent.add_child(child);
    let parent_id = scene.add_child(parent);
    // nested lookup falls back into the subtree
    let found = scene.child(child_id).expect("nested sprite is found");
    assert_eq!(found.texture().handle, 2);
    // removal searches the top level only
    assert!(scene.remove_child(child_id).is_none());
    assert!(scene.child(child_id).is_some());
    // removing the parent takes the whole subtree with it
    let removed = scene.remove_child(parent_id).expect("parent is removed");
    assert_eq!(removed.texture().handle, 1);
    assert!(scene.child(parent_id).is_none());
    assert!(scene.child(child_id).is_none());
}

// Removing an absent identifier is a no-op and the scene is unchanged.
#[test]
fn remove_absent_is_noop() {
    let mut scene = Scene::new();
    let a = Sprite::from_texture(tex(1));
    let ghost_sprite = Sprite::from_texture(tex(9));
    let absent = ghost_sprite.id();
    let id_a = scene.add_child(a);
    assert!(scene.remove_child(absent).is_none());
    assert!(scene.child(id_a).is_some());
}

// Mutable lookup edits the found sprite in place, exactly as the original's
// per-frame texture swap does.
#[test]
fn child_mut_edits_in_place() {
    let mut scene = Scene::new();
    let mut parent = Sprite::from_texture(tex(1));
    let wheel = Sprite::from_texture(tex(2));
    let wheel_id = parent.add_child(wheel);
    scene.add_child(parent);
    match scene.child_mut(wheel_id) {
        Some(s) => s.set_texture(tex(3)),
        None => panic!("wheel not found"),
    }
    assert_eq!(scene.child(wheel_id).unwrap().texture().handle, 3);
}

// Running an action through the scene drives the addressed sprite on update;
// the count of running actions falls to zero on completion.
#[test]
fn scene_runs_actions() {
    let mut scene = Scene::new();
    let sprite = Sprite::from_texture(tex(1));
    let id = scene.add_child(sprite);
    assert!(scene.run_action(id, &Action::MoveTo(2_000, 100 * UNIT, 0)));
    assert_eq!(scene.running_actions(), 1);
    scene.update(1_000);
    assert_eq!(scene.child(id).unwrap().position(), (50 * UNIT, 0));
    assert_eq!(scene.running_actions(), 1);
    scene.update(1_000);
    assert_eq!(scene.child(id).unwrap().position(), (100 * UNIT, 0));
    assert_eq!(scene.running_actions(), 0);
}

// Running an action against an absent identifier reports failure and changes
// nothing.
#[test]
fn run_action_absent_id() {
    let mut scene = Scene::new();
    let stray = Sprite::from_texture(tex(9));
    let absent = stray.id();
    assert!(!scene.run_action(absent, &Action::Show));
    assert_eq!(scene.running_actions(), 0);
}

// Updates reach nested sprites: an action on a child advances when the scene
// ticks.
#[test]
fn update_reaches_nested_sprites() {
    let mut scene = Scene::new();
    let mut parent = Sprite::from_texture(tex(1));
    let wheel = Sprite::from_texture(tex(2));
    let wheel_id = parent.add_child(wheel);
    scene.add_child(parent);
    assert!(scene.run_action(wheel_id, &Action::RotateTo(1_000, 90 * UNIT)));
    assert_eq!(scene.running_actions(), 1);
    scene.update(500);
    assert_eq!(scene.child(wheel_id).unwrap().rotation(), 45 * UNIT);
    scene.update(500);
    assert_eq!(scene.child(wheel_id).unwrap().rotation(), 90 * UNIT);
    assert_eq!(scene.running_actions(), 0);
}

// Concurrent independent actions on one sprite both advance each tick, in the
// order they were started: the last write to a shared field wins.
#[test]
fn concurrent_actions_last_write_wins() {
    let mut scene = Scene::new();
    let sprite = Sprite::from_texture(tex(1));
    let id = scene.add_child(sprite);
    assert!(scene.run_action(id, &Action::RotateTo(1_000, 100 * UNIT)));
    assert!(scene.run_action(id, &Action::RotateTo(1_000, 200 * UNIT)));
    assert_eq!(scene.running_actions(), 2);
    scene.update(500);
    // both interpolate from rotation 0; the later-started one writes last
    assert_eq!(scene.child(id).unwrap().rotation(), 100 * UNIT);
    scene.update(500);
    assert_eq!(scene.child(id).unwrap().rotation(), 200 * UNIT);
}

// The bounding box scales the texture per axis and places it by the anchor.
#[test]
fn bounding_box_formula() {
    let mut s = Sprite::from_texture(tex(1)); // 100 x 50 pixels
    s.set_position(10 * UNIT, 0);
    s.set_anchor(500, 500); // centered
    s.set_scale(2 * UNIT, UNIT);
    let (x, y, w, h) = s.bounding_box();
    assert_eq!(w, 200 * UNIT); // 100 px at double scale
    assert_eq!(h, 50 * UNIT);
    assert_eq!(x, 10 * UNIT - 100 * UNIT);
    assert_eq!(y, -25 * UNIT);
}

// Texture plumbing: size query and handle swap.
#[test]
fn texture_accessors() {
    let mut s = Sprite::from_texture(tex(4));
    assert_eq!(s.texture_size(), (100, 50));
    assert_eq!(s.texture().handle, 4);
    s.set_texture(Texture { handle: 5, width: 8, height: 8 });
    assert_eq!(s.texture_size(), (8, 8));
    assert_eq!(s.texture().handle, 5);
}

// A fresh sprite carries the documented defaults.
#[test]
fn sprite_defaults() {
    let s = Sprite::from_texture(tex(1));
    assert_eq!(s.anchor(), (500, 500));
    assert_eq!(s.position(), (0, 0));
    assert_eq!(s.rotation(), 0);
    assert_eq!(s.scale(), (UNIT, UNIT));
    assert!(!s.flip_x);
    assert!(!s.flip_y);
    assert!(s.visible());
    assert_eq!(s.opacity(), UNIT);
}
