//! Sprites: positioned, transformable visual nodes, each optionally owning
//! child sprites and running action states.

use crate::action::{states_view, ActionState, StateV};
use crate::easing::UNIT;
use vstd::prelude::*;

verus! {

/// A stable, globally unique sprite identifier: the 128 bits of a random
/// version-4 UUID drawn when the sprite is created.
#[derive(Clone, Copy, Debug, PartialEq, Eq, Structural)]
pub struct SpriteId(pub u128);

/// A shared handle to an external texture resource: the handle number names
/// the image in the host's registry, and the size is the image's size in
/// pixels. The library never reads pixels; drawing is the host's business.
#[derive(Clone, Copy, Debug, PartialEq, Eq, Structural)]
pub struct Texture {
    pub handle: u64,
    pub width: u32,
    pub height: u32,
}

/// A sprite: a transform over a texture, plus owned children and the states
/// of the actions running against it.
///
/// `anchor` is the normalized pivot (`UNIT` is 1), `position` a point in
/// scene units, `rotation` degrees, `scale` a factor per axis (`UNIT` is 1),
/// `opacity` a factor (`UNIT` is opaque) — all fixed-point as described in
/// [`crate::easing`].
#[derive(Debug)]
pub struct Sprite {
    pub anchor: (i64, i64),
    pub position: (i64, i64),
    pub rotation: i64,
    pub scale: (i64, i64),
    pub flip_x: bool,
    pub flip_y: bool,
    pub visible: bool,
    pub opacity: i64,
    pub id: SpriteId,
    pub texture: Texture,
    pub children: Vec<Sprite>,
    pub actions: Vec<ActionState>,
}

/// The mathematical model of a [`Sprite`]: the same fields with the children
/// and running actions as sequences of models. Contracts speak of this form.
pub struct SpriteV {
    pub anchor: (i64, i64),
    pub position: (i64, i64),
    pub rotation: i64,
    pub scale: (i64, i64),
    pub flip_x: bool,
    pub flip_y: bool,
    pub visible: bool,
    pub opacity: i64,
    pub id: SpriteId,
    pub texture: Texture,
    pub children: Seq<SpriteV>,
    pub actions: Seq<StateV>,
}

/// The model of a sprite.
pub open spec fn sprite_view(s: Sprite) -> SpriteV
    decreases s,
{
    SpriteV {
        anchor: s.anchor,
        position: s.position,
        rotation: s.rotation,
        scale: s.scale,
        flip_x: s.flip_x,
        flip_y: s.flip_y,
        visible: s.visible,
        opacity: s.opacity,
        id: s.id,
        texture: s.texture,
        children: sprites_view(s.children@),
        actions: states_view(s.actions@),
    }
}

/// The models of a list of sprites, elementwise.
pub open spec fn sprites_view(s: Seq<Sprite>) -> Seq<SpriteV>
    decreases s,
{
    if s.len() == 0 {
        Seq::empty()
    } else {
        seq![sprite_view(s[0])] + sprites_view(s.drop_first())
    }
}

/// `sprites_view` maps elementwise.
pub proof fn lemma_sprites_view(s: Seq<Sprite>)
    ensures
        sprites_view(s).len() == s.len(),
        forall|i: int| 0 <= i < s.len() ==> sprites_view(s)[i] == sprite_view(s[i]),
    decreases s.len(),
{
    if s.len() > 0 {
        lemma_sprites_view(s.drop_first());
    }
}

/// `v` forced into the representable range of a sprite value.
pub open spec fn clip_i64(v: int) -> i64 {
    if v > i64::MAX {
        i64::MAX
    } else if v < i64::MIN {
        i64::MIN
    } else {
        v as i64
    }
}

/// `a * b / UNIT`, rounded toward zero: the product of two fixed-point
/// values, back in fixed point.
pub open spec fn mul_unit(a: int, b: int) -> int {
    if a * b >= 0 {
        a * b / (UNIT as int)
    } else {
        -((-(a * b)) / (UNIT as int))
    }
}

/// The axis-aligned box `(x, y, w, h)` that `bounding_box` returns for a
/// sprite: the texture size scaled per axis, placed so the anchor point falls
/// on the sprite's position. Each component saturates at the representable
/// range.
pub open spec fn bounding_box_of(s: Sprite) -> (i64, i64, i64, i64) {
    let w = clip_i64(s.texture.width * s.scale.0);
    let h = clip_i64(s.texture.height * s.scale.1);
    (
        clip_i64(s.position.0 - mul_unit(s.anchor.0 as int, w as int)),
        clip_i64(s.position.1 - mul_unit(s.anchor.1 as int, h as int)),
        w,
        h,
    )
}

/// Relies on `uuid::Uuid::new_v4` (via `Uuid::as_u128`) for a fresh random
/// 128-bit identifier; nothing can be promised of a random value.
#[verifier::external_body]
fn fresh_sprite_id() -> SpriteId {
    SpriteId(uuid::Uuid::new_v4().as_u128())
}

impl Sprite {
    /// A sprite over `texture` with a fresh identifier and the default
    /// transform: centered anchor, the origin, no rotation, unit scale, no
    /// flips, visible and fully opaque, with no children and no running
    /// actions.
    pub fn from_texture(texture: Texture) -> (s: Sprite)
        ensures
            s.anchor == (500i64, 500i64),
            s.position == (0i64, 0i64),
            s.rotation == 0,
            s.scale == (UNIT, UNIT),
            s.flip_x == false,
            s.flip_y == false,
            s.visible == true,
            s.opacity == UNIT,
            s.texture == texture,
            s.children@ == Seq::<Sprite>::empty(),
            s.actions@ == Seq::<ActionState>::empty(),
    {
        Sprite {
            anchor: (500, 500),
            position: (0, 0),
            rotation: 0,
            scale: (UNIT, UNIT),
            flip_x: false,
            flip_y: false,
            visible: true,
            opacity: UNIT,
            id: fresh_sprite_id(),
            texture,
            children: Vec::new(),
            actions: Vec::new(),
        }
    }

    /// The sprite's identifier.
    pub fn id(&self) -> (r: SpriteId)
        ensures
            r == self.id,
    {
        self.id
    }

    /// Replaces the texture handle; the transform is untouched.
    pub fn set_texture(&mut self, texture: Texture)
        ensures
            *final(self) == (Sprite { texture, ..*old(self) }),
    {
        self.texture = texture;
    }

    /// The texture handle the sprite draws with.
    pub fn texture(&self) -> (r: Texture)
        ensures
            r == self.texture,
    {
        self.texture
    }

    /// The texture's size in pixels.
    pub fn texture_size(&self) -> (r: (u32, u32))
        ensures
            r == (self.texture.width, self.texture.height),
    {
        (self.texture.width, self.texture.height)
    }

    /// Moves the anchor, the normalized pivot the sprite turns and scales
    /// about (`UNIT` per whole texture extent).
    pub fn set_anchor(&mut self, x: i64, y: i64)
        ensures
            *final(self) == (Sprite { anchor: (x, y), ..*old(self) }),
    {
        self.anchor = (x, y);
    }

    /// The sprite's anchor.
    pub fn anchor(&self) -> (r: (i64, i64))
        ensures
            r == self.anchor,
    {
        self.anchor
    }

    /// Places the sprite.
    pub fn set_position(&mut self, x: i64, y: i64)
        ensures
            *final(self) == (Sprite { position: (x, y), ..*old(self) }),
    {
        self.position = (x, y);
    }

    /// The sprite's position.
    pub fn position(&self) -> (r: (i64, i64))
        ensures
            r == self.position,
    {
        self.position
    }

    /// Turns the sprite to an angle in fixed-point degrees.
    pub fn set_rotation(&mut self, deg: i64)
        ensures
            *final(self) == (Sprite { rotation: deg, ..*old(self) }),
    {
        self.rotation = deg;
    }

    /// The sprite's rotation in fixed-point degrees.
    pub fn rotation(&self) -> (r: i64)
        ensures
            r == self.rotation,
    {
        self.rotation
    }

    /// Scales the sprite per axis (`UNIT` is natural size).
    pub fn set_scale(&mut self, sx: i64, sy: i64)
        ensures
            *final(self) == (Sprite { scale: (sx, sy), ..*old(self) }),
    {
        self.scale = (sx, sy);
    }

    /// The sprite's scale per axis.
    pub fn scale(&self) -> (r: (i64, i64))
        ensures
            r == self.scale,
    {
        self.scale
    }

    /// Sets the sprite's opacity (`UNIT` is opaque, 0 transparent).
    pub fn set_opacity(&mut self, opacity: i64)
        ensures
            *final(self) == (Sprite { opacity, ..*old(self) }),
    {
        self.opacity = opacity;
    }

    /// The sprite's opacity.
    pub fn opacity(&self) -> (r: i64)
        ensures
            r == self.opacity,
    {
        self.opacity
    }

    /// Shows or hides the sprite.
    pub fn set_visible(&mut self, visible: bool)
        ensures
            *final(self) == (Sprite { visible, ..*old(self) }),
    {
        self.visible = visible;
    }

    /// Whether the sprite is visible.
    pub fn visible(&self) -> (r: bool)
        ensures
            r == self.visible,
    {
        self.visible
    }

    /// Sets the horizontal flip flag.
    pub fn set_flip_x(&mut self, flip: bool)
        ensures
            *final(self) == (Sprite { flip_x: flip, ..*old(self) }),
    {
        self.flip_x = flip;
    }

    /// Sets the vertical flip flag.
    pub fn set_flip_y(&mut self, flip: bool)
        ensures
            *final(self) == (Sprite { flip_y: flip, ..*old(self) }),
    {
        self.flip_y = flip;
    }

    /// The sprite's axis-aligned bounding box `(x, y, w, h)` in scene units:
    /// the texture size under the sprite's scale, anchored at its position.
    pub fn bounding_box(&self) -> (r: (i64, i64, i64, i64))
        ensures
            r == bounding_box_of(*self),
    {
        let w = clip_product(self.texture.width as i64, self.scale.0);
        let h = clip_product(self.texture.height as i64, self.scale.1);
        let x = anchor_offset(self.position.0, self.anchor.0, w);
        let y = anchor_offset(self.position.1, self.anchor.1, h);
        (x, y, w, h)
    }
}

/// The product of two sprite values stays well inside the wide range.
proof fn lemma_i64_mul_fits(a: int, b: int)
    requires
        i64::MIN <= a <= i64::MAX,
        i64::MIN <= b <= i64::MAX,
    ensures
        -(0x4000_0000_0000_0000_0000_0000_0000_0000) <= a * b
            <= 0x4000_0000_0000_0000_0000_0000_0000_0000,
{
    assert(-(0x4000_0000_0000_0000_0000_0000_0000_0000) <= a * b
        <= 0x4000_0000_0000_0000_0000_0000_0000_0000) by (nonlinear_arith)
        requires
            i64::MIN <= a <= i64::MAX,
            i64::MIN <= b <= i64::MAX,
    ;
}

/// `a * b` saturated into a sprite value.
fn clip_product(a: i64, b: i64) -> (r: i64)
    ensures
        r == clip_i64(a * b),
{
    proof {
        lemma_i64_mul_fits(a as int, b as int);
    }
    clip_wide((a as i128) * (b as i128))
}

/// `pos - anchor * extent / UNIT`, saturated: where an extent starts when the
/// normalized anchor point of it sits on `pos`.
fn anchor_offset(pos: i64, anchor: i64, extent: i64) -> (r: i64)
    ensures
        r == clip_i64(pos - mul_unit(anchor as int, extent as int)),
{
    proof {
        lemma_i64_mul_fits(anchor as int, extent as int);
    }
    let p = (anchor as i128) * (extent as i128);
    let shifted: i128 = if p >= 0 {
        let wide = p as u128;
        let q = wide / (UNIT as u128);
        proof {
            crate::easing::lemma_mul_div_le(wide as int, 1, UNIT as int);
        }
        (pos as i128) - (q as i128)
    } else {
        let wide = (-p) as u128;
        let q = wide / (UNIT as u128);
        proof {
            crate::easing::lemma_mul_div_le(wide as int, 1, UNIT as int);
        }
        (pos as i128) + (q as i128)
    };
    clip_wide(shifted)
}

/// `a + b` saturated into a sprite value.
pub(crate) fn clip_add(a: i64, b: i64) -> (r: i64)
    ensures
        r == clip_i64(a + b),
{
    clip_wide((a as i128) + (b as i128))
}

/// `v` saturated into a sprite value.
fn clip_wide(v: i128) -> (r: i64)
    ensures
        r == clip_i64(v as int),
{
    if v > i64::MAX as i128 {
        i64::MAX
    } else if v < i64::MIN as i128 {
        i64::MIN
    } else {
        v as i64
    }
}

} // verus!
