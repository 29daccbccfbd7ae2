//! One dot: where it is, how it moves, and how it fades.

use vstd::prelude::*;
use nanorand::WyRand;
use crate::color::{hex_color, Rgba};
use crate::random::{draw_between, draw_byte};
use crate::units::{pixel_floor, pixel_origin, JITTER_LIMIT, MARGIN_PIXELS, UNITS_PER_PIXEL};
use crate::velocity::{draw_jitter, is_jitter, Velocity};

verus! {

/// Smallest radius of a dot, in pixels.
pub const SMALLEST_SIZE: u32 = 2;

/// Radii stay below this limit.
pub const SIZE_LIMIT: u32 = 7;

/// A point of the plane, in units. The viewport's corner is the origin.
#[derive(Clone, Copy, Debug, PartialEq, Eq, Structural)]
pub struct Position {
    pub x: i64,
    pub y: i64,
}

/// A dot of the swarm.
///
/// Only the alpha channel of `color` ever changes: it walks toward the alpha
/// of `color_target` one step per update, and a fresh target is drawn when
/// it arrives.
#[derive(Clone, Copy, Debug, PartialEq, Eq, Structural)]
pub struct Particle {
    pub position: Position,
    pub velocity: Velocity,
    pub size: u32,
    pub color: Rgba,
    pub color_target: Rgba,
}

/// The color every dot starts with, and starts out aiming for.
pub open spec fn starting_color() -> Rgba {
    Rgba { red: 255, green: 255, blue: 255, alpha: 128 }
}

/// The coordinate at which a dot that left through the far side reappears:
/// the outer edge of the band before the origin.
pub open spec fn near_edge() -> int {
    -pixel_origin(MARGIN_PIXELS as int)
}

/// The coordinate past which a dot has left an axis of `extent` pixels: the
/// outer edge of the band beyond it.
pub open spec fn far_edge(extent: u32) -> int {
    pixel_origin(extent + MARGIN_PIXELS)
}

/// A coordinate after wrap-around along an axis of `extent` pixels: past
/// either edge it moves to the opposite edge, and between them it stays.
pub open spec fn wrapped(coordinate: int, extent: u32) -> int {
    if coordinate > far_edge(extent) {
        near_edge()
    } else if coordinate < near_edge() {
        far_edge(extent)
    } else {
        coordinate
    }
}

/// Whether a dot may start at `coordinate` along an axis of `extent` pixels:
/// on the lower edge of one of the axis's pixels, or at the origin when the
/// axis is empty.
pub open spec fn is_start(coordinate: int, extent: u32) -> bool {
    &&& coordinate == pixel_origin(pixel_floor(coordinate))
    &&& 0 <= pixel_floor(coordinate)
    &&& pixel_floor(coordinate) < extent || (extent == 0 && coordinate == 0)
}

/// Wraps a coordinate along an axis of `extent` pixels.
pub fn wrap_axis(coordinate: i64, extent: u32) -> (moved: i64)
    ensures
        moved == wrapped(coordinate as int, extent),
        near_edge() <= moved <= far_edge(extent),
{
    let near: i64 = -(MARGIN_PIXELS * UNITS_PER_PIXEL);
    let far: i64 = (extent as i64 + MARGIN_PIXELS) * UNITS_PER_PIXEL;
    if coordinate > far {
        near
    } else if coordinate < near {
        far
    } else {
        coordinate
    }
}

impl Particle {
    /// The dot after color easing, where `drawn` is the byte that a redraw
    /// of the target would yield.
    pub open spec fn eased(self, drawn: u8) -> Particle {
        if self.color.alpha < self.color_target.alpha {
            Particle { color: Rgba { alpha: (self.color.alpha + 1) as u8, ..self.color }, ..self }
        } else if self.color.alpha > self.color_target.alpha {
            Particle { color: Rgba { alpha: (self.color.alpha - 1) as u8, ..self.color }, ..self }
        } else {
            Particle { color_target: Rgba { alpha: drawn, ..self.color_target }, ..self }
        }
    }

    /// The dot after wrap-around in a viewport of `width` by `height`
    /// pixels, each axis on its own.
    pub open spec fn wrapped(self, width: u32, height: u32) -> Particle {
        Particle {
            position: Position {
                x: wrapped(self.position.x as int, width) as i64,
                y: wrapped(self.position.y as int, height) as i64,
            },
            ..self
        }
    }

    /// The dot moved by its velocity.
    pub open spec fn drifted(self) -> Particle {
        Particle {
            position: Position {
                x: (self.position.x + self.velocity.x) as i64,
                y: (self.position.y + self.velocity.y) as i64,
            },
            ..self
        }
    }

    /// The dot after one update in a viewport of `width` by `height` pixels,
    /// given what the update draws: color easing, then wrap-around, then the
    /// velocity step, then the move by the new velocity.
    pub open spec fn advanced(
        self,
        width: u32,
        height: u32,
        drawn_alpha: u8,
        jitter_x: i32,
        jitter_y: i32,
    ) -> Particle {
        let placed = self.eased(drawn_alpha).wrapped(width, height);
        Particle { velocity: self.velocity.stepped(jitter_x, jitter_y), ..placed }.drifted()
    }

    /// Whether one update in a viewport of `width` by `height` pixels can
    /// turn this dot into `next`: some byte and some pair of jitter
    /// increments make the step.
    pub open spec fn may_become(self, next: Particle, width: u32, height: u32) -> bool {
        exists|drawn_alpha: u8, jitter_x: i32, jitter_y: i32|
            is_jitter(jitter_x) && is_jitter(jitter_y) && next == #[trigger] self.advanced(
                width,
                height,
                drawn_alpha,
                jitter_x,
                jitter_y,
            )
    }

    /// Whether the dot is one that a new world of `width` by `height` pixels
    /// may hold.
    pub open spec fn is_seed(self, width: u32, height: u32) -> bool {
        &&& is_start(self.position.x as int, width)
        &&& is_start(self.position.y as int, height)
        &&& 0 <= self.velocity.x < JITTER_LIMIT
        &&& -JITTER_LIMIT <= self.velocity.y < 0
        &&& is_jitter(self.velocity.x_delta)
        &&& is_jitter(self.velocity.y_delta)
        &&& SMALLEST_SIZE <= self.size < SIZE_LIMIT
        &&& self.color == starting_color()
        &&& self.color_target == starting_color()
    }

    /// A dot at the lower edge of pixel (`pixel_x`, `pixel_y`), in the
    /// starting color.
    pub fn spawn(pixel_x: u32, pixel_y: u32, velocity: Velocity, size: u32) -> (dot: Particle)
        ensures
            dot.position.x == pixel_origin(pixel_x as int),
            dot.position.y == pixel_origin(pixel_y as int),
            dot.velocity == velocity,
            dot.size == size,
            dot.color == starting_color(),
            dot.color_target == starting_color(),
    {
        Particle {
            position: Position {
                x: pixel_x as i64 * UNITS_PER_PIXEL,
                y: pixel_y as i64 * UNITS_PER_PIXEL,
            },
            velocity,
            size,
            color: Rgba { red: 255, green: 255, blue: 255, alpha: 128 },
            color_target: Rgba { red: 255, green: 255, blue: 255, alpha: 128 },
        }
    }

    /// Draws a dot for a new world of `width` by `height` pixels: a pixel of
    /// the viewport, a velocity up and to the right, a pair of jitter
    /// increments and a size.
    pub fn seed(rng: &mut WyRand, width: u32, height: u32) -> (dot: Particle)
        ensures
            dot.is_seed(width, height),
    {
        let pixel_x: u32 = draw_between(rng, 0, width);
        let pixel_y: u32 = draw_between(rng, 0, height);
        let right: u32 = draw_between(rng, 0, JITTER_LIMIT as u32);
        let up: u32 = draw_between(rng, 0, JITTER_LIMIT as u32);
        let x_delta: i32 = draw_jitter(rng);
        let y_delta: i32 = draw_jitter(rng);
        let velocity = Velocity { x: right as i32, y: up as i32 - JITTER_LIMIT, x_delta, y_delta };
        let size: u32 = draw_between(rng, SMALLEST_SIZE, SIZE_LIMIT);
        Particle::spawn(pixel_x, pixel_y, velocity, size)
    }

    /// Color easing: one step of alpha toward the target's alpha, or, when
    /// they are equal, `drawn` as the target's new alpha.
    pub fn ease(&mut self, drawn: u8)
        ensures
            *final(self) == old(self).eased(drawn),
    {
        if self.color.alpha < self.color_target.alpha {
            self.color.alpha = self.color.alpha + 1;
        } else if self.color.alpha > self.color_target.alpha {
            self.color.alpha = self.color.alpha - 1;
        } else {
            self.color_target.alpha = drawn;
        }
    }

    /// Wrap-around in a viewport of `width` by `height` pixels.
    pub fn wrap(&mut self, width: u32, height: u32)
        ensures
            *final(self) == old(self).wrapped(width, height),
            near_edge() <= final(self).position.x <= far_edge(width),
            near_edge() <= final(self).position.y <= far_edge(height),
    {
        self.position.x = wrap_axis(self.position.x, width);
        self.position.y = wrap_axis(self.position.y, height);
    }

    /// Moves a dot that lies between the edges of some viewport by its
    /// velocity.
    fn drift(&mut self)
        requires
            near_edge() <= old(self).position.x <= far_edge(u32::MAX),
            near_edge() <= old(self).position.y <= far_edge(u32::MAX),
        ensures
            *final(self) == old(self).drifted(),
    {
        self.position.x = self.position.x + self.velocity.x as i64;
        self.position.y = self.position.y + self.velocity.y as i64;
    }

    /// One update with its draws given: `drawn_alpha` is used only if the
    /// target is redrawn, and `jitter_x` and `jitter_y` become the next
    /// increments of the velocity.
    pub fn advance(
        &mut self,
        width: u32,
        height: u32,
        drawn_alpha: u8,
        jitter_x: i32,
        jitter_y: i32,
    )
        ensures
            *final(self) == old(self).advanced(width, height, drawn_alpha, jitter_x, jitter_y),
    {
        self.ease(drawn_alpha);
        self.wrap(width, height);
        self.velocity.step(jitter_x, jitter_y);
        self.drift();
    }

    /// One update in a viewport of `width` by `height` pixels, drawing from
    /// a freshly seeded generator. A new target alpha is drawn only when
    /// alpha has reached the current one.
    pub fn update(&mut self, width: u32, height: u32)
        ensures
            old(self).may_become(*final(self), width, height),
    {
        let mut rng = WyRand::new();
        let drawn_alpha: u8 = if self.color.alpha == self.color_target.alpha {
            draw_byte(&mut rng)
        } else {
            self.color_target.alpha
        };
        self.ease(drawn_alpha);
        self.wrap(width, height);
        let ghost before = self.velocity;
        self.velocity.update(&mut rng);
        self.drift();
        proof {
            let (jitter_x, jitter_y) = choose|jitter_x: i32, jitter_y: i32|
                is_jitter(jitter_x) && is_jitter(jitter_y) && self.velocity
                    == #[trigger] before.stepped(jitter_x, jitter_y);
            assert(*self == old(self).advanced(width, height, drawn_alpha, jitter_x, jitter_y));
        }
    }

    /// The fill style of the dot: its color as `#rrggbbaa`.
    pub fn color_hex(&self) -> (text: String)
        ensures
            text@ == hex_color(self.color),
    {
        self.color.hex()
    }
}

/// Whether alpha rose by one between `before` and `after`, the target
/// staying as it was.
pub open spec fn alpha_rose(before: Particle, after: Particle) -> bool {
    after.color.alpha == before.color.alpha + 1 && after.color_target == before.color_target
}

/// Whether alpha fell by one between `before` and `after`, the target
/// staying as it was.
pub open spec fn alpha_fell(before: Particle, after: Particle) -> bool {
    after.color.alpha == before.color.alpha - 1 && after.color_target == before.color_target
}

/// Whether `before` had reached its target alpha and `after` holds the same
/// alpha, with whatever target alpha was drawn.
pub open spec fn target_redrawn(before: Particle, after: Particle) -> bool {
    before.color.alpha == before.color_target.alpha && after.color.alpha == before.color.alpha
}

/// Every update eases the color in exactly one way: alpha rises by one, or
/// falls by one, or the target alpha is redrawn. Which one depends on how
/// alpha compared with the target before. Nothing else of either color
/// changes, nor does the size.
pub proof fn lemma_update_eases_one_way(before: Particle, after: Particle, width: u32, height: u32)
    requires
        before.may_become(after, width, height),
    ensures
        alpha_rose(before, after) <==> before.color.alpha < before.color_target.alpha,
        alpha_fell(before, after) <==> before.color.alpha > before.color_target.alpha,
        target_redrawn(before, after) <==> before.color.alpha == before.color_target.alpha,
        alpha_rose(before, after) || alpha_fell(before, after) || target_redrawn(before, after),
        !(alpha_rose(before, after) && alpha_fell(before, after)),
        !(alpha_rose(before, after) && target_redrawn(before, after)),
        !(alpha_fell(before, after) && target_redrawn(before, after)),
        after.color.red == before.color.red,
        after.color.green == before.color.green,
        after.color.blue == before.color.blue,
        after.color_target.red == before.color_target.red,
        after.color_target.green == before.color_target.green,
        after.color_target.blue == before.color_target.blue,
        after.size == before.size,
{
}

/// Every update wraps before it moves. Taking the new velocity back off the
/// new position gives the position after wrap-around: the near edge for a
/// dot that was past the far edge, the far edge for one that was before the
/// near edge, and the old position for one between them. Both axes alike.
pub proof fn lemma_update_wraps_then_moves(
    before: Particle,
    after: Particle,
    width: u32,
    height: u32,
)
    requires
        before.may_become(after, width, height),
    ensures
        after.position.x - after.velocity.x == wrapped(before.position.x as int, width),
        after.position.y - after.velocity.y == wrapped(before.position.y as int, height),
        before.position.x > far_edge(width) ==> after.position.x - after.velocity.x == near_edge(),
        before.position.x < near_edge() ==> after.position.x - after.velocity.x == far_edge(width),
        before.position.y > far_edge(height) ==> after.position.y - after.velocity.y == near_edge(),
        before.position.y < near_edge() ==> after.position.y - after.velocity.y == far_edge(
            height,
        ),
        before.velocity.may_become(after.velocity),
{
    let (drawn_alpha, jitter_x, jitter_y) = choose|drawn_alpha: u8, jitter_x: i32, jitter_y: i32|
        is_jitter(jitter_x) && is_jitter(jitter_y) && after == #[trigger] before.advanced(
            width,
            height,
            drawn_alpha,
            jitter_x,
            jitter_y,
        );
    assert(after.velocity == before.velocity.stepped(jitter_x, jitter_y));
}

/// The viewport matters to an update only at its edges: a dot that lies
/// between the edges of two viewports is updated alike in both. Resizing
/// therefore moves no dot; it changes only where dots wrap.
pub proof fn lemma_viewport_matters_only_at_the_edges(
    dot: Particle,
    width: u32,
    height: u32,
    other_width: u32,
    other_height: u32,
    drawn_alpha: u8,
    jitter_x: i32,
    jitter_y: i32,
)
    requires
        near_edge() <= dot.position.x <= far_edge(width),
        near_edge() <= dot.position.x <= far_edge(other_width),
        near_edge() <= dot.position.y <= far_edge(height),
        near_edge() <= dot.position.y <= far_edge(other_height),
    ensures
        dot.advanced(width, height, drawn_alpha, jitter_x, jitter_y) == dot.advanced(
            other_width,
            other_height,
            drawn_alpha,
            jitter_x,
            jitter_y,
        ),
{
}

} // verus!
