use vstd::prelude::*;

use vstd::arithmetic::div_mod::{lemma_div_multiples_vanish, lemma_fundamental_div_mod};

use crate::camera::Camera;
use crate::entity::{Entity, EntityView};
use crate::fixed::{
    div_toward_zero, div_toward_zero_i128, fx_add, fx_div, fx_mul, fx_sub, whole_units, Fixed,
};

verus! {

/// `v` clamped into the range of `u32`, as a cast from a real number to `u32` does.
pub open spec fn clamp_u32(v: int) -> int {
    if v < 0 {
        0
    } else if v > u32::MAX {
        u32::MAX as int
    } else {
        v
    }
}

/// A world coordinate on the canvas: scaled, shifted against the camera as far as the
/// parallax factor says, then moved by `offset` whole pixels.
pub open spec fn to_canvas_axis(pos: int, camera: int, parallax: int, scale: int, offset: int) -> int {
    fx_add(fx_sub(fx_mul(pos, scale), fx_mul(camera, fx_mul(parallax, scale))), offset * 1000)
}

/// The world coordinate of a canvas coordinate; the inverse of `to_canvas_axis`.
pub open spec fn from_canvas_axis(pos: int, camera: int, parallax: int, scale: int, offset: int) -> int {
    fx_div(fx_sub(fx_add(pos, fx_mul(fx_mul(camera, parallax), scale)), offset * 1000), scale)
}

/// A world length in whole pixels on the canvas, the fraction cut off.
pub open spec fn to_canvas_length(length: int, scale: int) -> int {
    clamp_u32(div_toward_zero(length * scale, 1000))
}

/// A canvas length in whole world units, the fraction cut off.
pub open spec fn from_canvas_length(length: int, scale: int) -> int {
    clamp_u32(div_toward_zero(length * 1000, scale))
}

impl EntityView {
    /// Where this entity appears on the canvas: left, top, width and height.
    pub open spec fn canvas_rect(self, camera: Camera, offset: (u32, u32)) -> (int, int, int, int) {
        (
            to_canvas_axis(self.position.0, camera.position.0@, self.parallax.0, camera.scale.0@, offset.0 as int),
            to_canvas_axis(self.position.1, camera.position.1@, self.parallax.1, camera.scale.1@, offset.1 as int),
            to_canvas_length(self.dimensions.0 as int, camera.scale.0@),
            to_canvas_length(self.dimensions.1 as int, camera.scale.1@),
        )
    }
}

fn scale_length(length: u32, scale: Fixed) -> (r: u32)
    ensures
        r as int == to_canvas_length(length as int, scale@),
{
    let l = length as i128;
    let s = scale.milli as i128;
    assert(-0x8000_0000_0000_0000 * 0x1_0000_0000 <= l * s <= 0x8000_0000_0000_0000 * 0x1_0000_0000)
        by (nonlinear_arith)
        requires
            0 <= l < 0x1_0000_0000,
            -0x8000_0000_0000_0000 <= s < 0x8000_0000_0000_0000,
    ;
    let p = l * s;
    let q = div_toward_zero_i128(p, 1000);
    if q < 0 {
        0
    } else if q > u32::MAX as i128 {
        u32::MAX
    } else {
        q as u32
    }
}

fn unscale_length(length: u32, scale: Fixed) -> (r: u32)
    requires
        scale@ > 0,
    ensures
        r as int == from_canvas_length(length as int, scale@),
{
    let q = div_toward_zero_i128(length as i128 * 1000, scale.milli as i128);
    if q > u32::MAX as i128 {
        u32::MAX
    } else {
        q as u32
    }
}

fn to_canvas_coordinate(pos: Fixed, camera: Fixed, parallax: Fixed, scale: Fixed, offset: u32) -> (r: Fixed)
    ensures
        r@ == to_canvas_axis(pos@, camera@, parallax@, scale@, offset as int),
{
    pos.mul(scale).sub(camera.mul(parallax.mul(scale))).add(Fixed::from_length(offset))
}

fn from_canvas_coordinate(pos: Fixed, camera: Fixed, parallax: Fixed, scale: Fixed, offset: u32) -> (r: Fixed)
    requires
        scale@ > 0,
    ensures
        r@ == from_canvas_axis(pos@, camera@, parallax@, scale@, offset as int),
{
    pos.add(camera.mul(parallax).mul(scale)).sub(Fixed::from_length(offset)).div(scale)
}

impl Entity {
    /// Where this entity appears on the canvas: left, top, width and height.
    pub fn to_canvas_coordinates(&self, camera: &Camera, offset: (u32, u32)) -> (r: (Fixed, Fixed, u32, u32))
        ensures
            (r.0@, r.1@, r.2 as int, r.3 as int) == self@.canvas_rect(*camera, offset),
    {
        (
            to_canvas_coordinate(self.position.0, camera.position.0, self.parallax.0, camera.scale.0, offset.0),
            to_canvas_coordinate(self.position.1, camera.position.1, self.parallax.1, camera.scale.1, offset.1),
            scale_length(self.dimensions.0, camera.scale.0),
            scale_length(self.dimensions.1, camera.scale.1),
        )
    }

    /// The entity drawn on the canvas at `rect` (left, top, width, height, and the two
    /// parallax factors), as a new entity in the world.
    pub fn from_canvas_coordinates(
        rect: (Fixed, Fixed, u32, u32, Fixed, Fixed),
        camera: &Camera,
        offset: (u32, u32),
    ) -> (r: Entity)
        requires
            camera.scale.0@ > 0,
            camera.scale.1@ > 0,
        ensures
            r@ == (EntityView {
                sprite_sheet_rect: None,
                aim_direction: None,
                bounciness: 400,
                slippiness: 800,
                dimensions: (
                    from_canvas_length(rect.2 as int, camera.scale.0@) as u32,
                    from_canvas_length(rect.3 as int, camera.scale.1@) as u32,
                ),
                position: (
                    from_canvas_axis(rect.0@, camera.position.0@, rect.4@, camera.scale.0@, offset.0 as int),
                    from_canvas_axis(rect.1@, camera.position.1@, rect.5@, camera.scale.1@, offset.1 as int),
                ),
                id: None,
                event: None,
                health: None,
                damage_factor: None,
                step_height: 0,
                velocity: (0, 0),
                acceleration: (0, 1000),
                parallax: (rect.4@, rect.5@),
            }),
    {
        let (x, y, width, height, parallax_x, parallax_y) = rect;
        Entity::new(
            from_canvas_coordinate(x, camera.position.0, parallax_x, camera.scale.0, offset.0),
            from_canvas_coordinate(y, camera.position.1, parallax_y, camera.scale.1, offset.1),
            unscale_length(width, camera.scale.0),
            unscale_length(height, camera.scale.1),
        ).parallax_x(parallax_x).parallax_y(parallax_y)
    }
}

/// `v` clamped into the range of `i32`, as a cast from a real number to `i32` does.
pub open spec fn clamp_i32(v: int) -> int {
    if v < i32::MIN {
        i32::MIN as int
    } else if v > i32::MAX {
        i32::MAX as int
    } else {
        v
    }
}

impl Camera {
    /// The offset that puts the camera's position at the middle of the viewport.
    pub open spec fn center_offset(self) -> (u32, u32) {
        ((self.dimensions.0 / 2) as u32, (self.dimensions.1 / 2) as u32)
    }

    /// Where `entity` lands on the viewport, in whole pixels, and whether any of it shows.
    pub open spec fn screen_rect(self, entity: EntityView) -> Option<(i32, i32, u32, u32)> {
        let r = entity.canvas_rect(self, self.center_offset());
        let x = clamp_i32(whole_units(r.0));
        let y = clamp_i32(whole_units(r.1));
        if x + r.2 >= 0 && y + r.3 >= 0 && x <= self.dimensions.0 && y <= self.dimensions.1 {
            Some((x as i32, y as i32, r.2 as u32, r.3 as u32))
        } else {
            None
        }
    }

    /// The pixel rectangle at which `entity` is drawn, or `None` where it lies wholly off
    /// the viewport.
    pub fn visible_rect(&self, entity: &Entity) -> (r: Option<(i32, i32, u32, u32)>)
        ensures
            r == self.screen_rect(entity@),
    {
        let offset = ((self.dimensions.0 / 2) as u32, (self.dimensions.1 / 2) as u32);
        let (x, y, width, height) = entity.to_canvas_coordinates(self, offset);
        let x = to_pixel(x);
        let y = to_pixel(y);
        if x as i64 + width as i64 >= 0 && y as i64 + height as i64 >= 0 && x as i64
            <= self.dimensions.0 as i64 && y as i64 <= self.dimensions.1 as i64 {
            Some((x, y, width, height))
        } else {
            None
        }
    }
}

fn to_pixel(v: Fixed) -> (r: i32)
    ensures
        r as int == clamp_i32(whole_units(v@)),
{
    let w = v.whole();
    if w < i32::MIN as i64 {
        i32::MIN
    } else if w > i32::MAX as i64 {
        i32::MAX
    } else {
        w as i32
    }
}

/// Coordinates, in thousandths, small enough that no step of the canvas mapping saturates.
pub open spec fn within_mapping_bound(v: int) -> bool {
    -0x100_0000_0000 <= v <= 0x100_0000_0000
}

proof fn lemma_whole_product(x: int, s: int)
    requires
        0 < s <= 25000,
        (x * s) % 1000 == 0,
    ensures
        div_toward_zero(x * s, 1000) * 1000 == x * s,
{
    let k = x * s;
    lemma_fundamental_div_mod(k, 1000);
    let q = k / 1000;
    assert(k == 1000 * q);
    if k < 0 {
        lemma_div_multiples_vanish(-q, 1000);
        assert(-k == 1000 * (-q));
    }
}

proof fn lemma_product_bound(x: int, s: int)
    requires
        0 < s <= 25000,
        within_mapping_bound(x),
    ensures
        -0x100_0000_0000 * 25000 <= div_toward_zero(x * s, 1000) <= 0x100_0000_0000 * 25000,
        -0x100_0000_0000 * 25000 <= x * s <= 0x100_0000_0000 * 25000,
{
    assert(-0x100_0000_0000 * 25000 <= x * s <= 0x100_0000_0000 * 25000) by (nonlinear_arith)
        requires
            0 < s <= 25000,
            -0x100_0000_0000 <= x <= 0x100_0000_0000,
    ;
}

proof fn lemma_unit_factor(v: int)
    requires
        within_mapping_bound(v) || (0 < v <= 25000),
    ensures
        fx_mul(v, 1000) == v,
        fx_mul(1000, v) == v,
{
    lemma_div_multiples_vanish(v, 1000);
    lemma_div_multiples_vanish(-v, 1000);
    assert(v * 1000 == 1000 * v);
    assert(-(v * 1000) == 1000 * (-v));
}

proof fn lemma_axis_round_trip(x: int, c: int, s: int, o: int)
    requires
        10 <= s <= 25000,
        within_mapping_bound(x),
        within_mapping_bound(c),
        0 <= o <= u32::MAX,
        (x * s) % 1000 == 0,
    ensures
        from_canvas_axis(to_canvas_axis(x, c, 1000, s, o), c, 1000, s, o) == x,
{
    lemma_unit_factor(s);
    lemma_unit_factor(c);
    lemma_product_bound(x, s);
    lemma_product_bound(c, s);
    lemma_whole_product(x, s);
    let a = fx_mul(x, s);
    assert(a == div_toward_zero(x * s, 1000));
    assert(a * 1000 == x * s);
    let back = fx_sub(fx_add(to_canvas_axis(x, c, 1000, s, o), fx_mul(fx_mul(c, 1000), s)), o * 1000);
    assert(back == a);
    if x >= 0 {
        lemma_div_multiples_vanish(x, s);
        assert(x * s == s * x) by (nonlinear_arith);
    } else {
        lemma_div_multiples_vanish(-x, s);
        assert(-(x * s) == s * (-x)) by (nonlinear_arith);
    }
}

proof fn lemma_length_round_trip(d: int, s: int)
    requires
        10 <= s <= 25000,
        0 <= d <= u32::MAX,
        (d * s) % 1000 == 0,
        d * s <= u32::MAX * 1000,
    ensures
        from_canvas_length(to_canvas_length(d, s), s) == d,
{
    lemma_whole_product(d, s);
    assert(d * s >= 0) by (nonlinear_arith)
        requires
            0 <= d,
            0 < s,
    ;
    let q = div_toward_zero(d * s, 1000);
    assert(0 <= q <= u32::MAX);
    assert(q * 1000 == s * d);
    lemma_div_multiples_vanish(d, s);
}

/// Mapping an entity of parallax one to the canvas and back gives its position and size
/// again, where the camera's scale is in range, the scaled coordinates and lengths come out
/// whole, the scaled size fits in `u32`, and coordinates stay within the mapping bound.
pub proof fn lemma_canvas_round_trip(e: EntityView, camera: Camera, offset: (u32, u32))
    requires
        e.parallax == (1000int, 1000int),
        camera.scale_in_range(),
        within_mapping_bound(e.position.0),
        within_mapping_bound(e.position.1),
        within_mapping_bound(camera.position.0@),
        within_mapping_bound(camera.position.1@),
        (e.position.0 * camera.scale.0@) % 1000 == 0,
        (e.position.1 * camera.scale.1@) % 1000 == 0,
        (e.dimensions.0 as int * camera.scale.0@) % 1000 == 0,
        (e.dimensions.1 as int * camera.scale.1@) % 1000 == 0,
        e.dimensions.0 as int * camera.scale.0@ <= u32::MAX * 1000,
        e.dimensions.1 as int * camera.scale.1@ <= u32::MAX * 1000,
    ensures
        ({
            let r = e.canvas_rect(camera, offset);
            &&& from_canvas_axis(r.0, camera.position.0@, 1000, camera.scale.0@, offset.0 as int)
                == e.position.0
            &&& from_canvas_axis(r.1, camera.position.1@, 1000, camera.scale.1@, offset.1 as int)
                == e.position.1
            &&& from_canvas_length(r.2, camera.scale.0@) == e.dimensions.0 as int
            &&& from_canvas_length(r.3, camera.scale.1@) == e.dimensions.1 as int
        }),
{
    lemma_axis_round_trip(e.position.0, camera.position.0@, camera.scale.0@, offset.0 as int);
    lemma_axis_round_trip(e.position.1, camera.position.1@, camera.scale.1@, offset.1 as int);
    lemma_length_round_trip(e.dimensions.0 as int, camera.scale.0@);
    lemma_length_round_trip(e.dimensions.1 as int, camera.scale.1@);
}

} // verus!
