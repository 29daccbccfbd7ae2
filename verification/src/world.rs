//! The swarm and its viewport.

use vstd::prelude::*;
use nanorand::WyRand;
use crate::color::hex_color;
use crate::particle::Particle;
use crate::units::{pixel_floor, pixel_of};

verus! {

/// A fixed population of dots and the viewport they wrap around in.
///
/// The viewport may be resized between updates by assigning `width` and
/// `height`. Dots are not moved by that: the next update wraps them at the
/// new edges.
#[derive(Debug)]
pub struct World {
    pub width: u32,
    pub height: u32,
    pub particles: Vec<Particle>,
}

/// A filled circle to draw: center and radius in pixels, and the fill style.
#[derive(Debug, PartialEq, Eq)]
pub struct Circle {
    pub x: i64,
    pub y: i64,
    pub radius: u32,
    pub fill: String,
}

/// What to draw for one frame: clear the surface from its corner to
/// `width` by `height` pixels, then fill `circles` in order, later ones on
/// top.
#[derive(Debug, PartialEq, Eq)]
pub struct Frame {
    pub width: u32,
    pub height: u32,
    pub circles: Vec<Circle>,
}

impl Circle {
    /// Whether the circle is the picture of `dot`: centered on the pixel
    /// that contains the dot, with the dot's size as radius and its color as
    /// fill style.
    pub open spec fn depicts(self, dot: Particle) -> bool {
        &&& self.x == pixel_floor(dot.position.x as int)
        &&& self.y == pixel_floor(dot.position.y as int)
        &&& self.radius == dot.size
        &&& self.fill@ == hex_color(dot.color)
    }

    /// The picture of `dot`.
    pub fn of(dot: &Particle) -> (circle: Circle)
        ensures
            circle.depicts(*dot),
    {
        Circle {
            x: pixel_of(dot.position.x),
            y: pixel_of(dot.position.y),
            radius: dot.size,
            fill: dot.color_hex(),
        }
    }
}

impl World {
    /// A world of `width` by `height` pixels with `max_particles` dots,
    /// each drawn from one freshly seeded generator.
    pub fn new(width: u32, height: u32, max_particles: usize) -> (world: World)
        ensures
            world.width == width,
            world.height == height,
            world.particles@.len() == max_particles,
            forall|i: int|
                0 <= i < max_particles ==> (#[trigger] world.particles@[i]).is_seed(width, height),
    {
        let mut rng = WyRand::new();
        let mut particles: Vec<Particle> = Vec::new();
        while particles.len() < max_particles
            invariant
                particles@.len() <= max_particles,
                forall|i: int|
                    0 <= i < particles@.len() ==> (#[trigger] particles@[i]).is_seed(width, height),
            decreases max_particles - particles@.len(),
        {
            let dot = Particle::seed(&mut rng, width, height);
            particles.push(dot);
        }
        World { width, height, particles }
    }

    /// Updates every dot once, in order, against the current viewport. The
    /// population and the viewport stay as they are.
    pub fn update(&mut self)
        ensures
            final(self).width == old(self).width,
            final(self).height == old(self).height,
            final(self).particles@.len() == old(self).particles@.len(),
            forall|i: int|
                0 <= i < old(self).particles@.len() ==> (#[trigger] old(self).particles@[i]).may_become(
                    final(self).particles@[i],
                    old(self).width,
                    old(self).height,
                ),
    {
        let count: usize = self.particles.len();
        let mut index: usize = 0;
        while index < count
            invariant
                index <= count,
                count == self.particles@.len(),
                count == old(self).particles@.len(),
                self.width == old(self).width,
                self.height == old(self).height,
                forall|i: int|
                    0 <= i < index ==> (#[trigger] old(self).particles@[i]).may_become(
                        self.particles@[i],
                        self.width,
                        self.height,
                    ),
                forall|i: int|
                    index <= i < count ==> self.particles@[i] == old(self).particles@[i],
            decreases count - index,
        {
            let width: u32 = self.width;
            let height: u32 = self.height;
            self.particles[index].update(width, height);
            index = index + 1;
        }
    }

    /// The frame that shows the world: the viewport to clear, and one
    /// circle per dot, in the order of the dots.
    pub fn render(&self) -> (frame: Frame)
        ensures
            frame.width == self.width,
            frame.height == self.height,
            frame.circles@.len() == self.particles@.len(),
            forall|i: int|
                0 <= i < self.particles@.len() ==> (#[trigger] frame.circles@[i]).depicts(
                    self.particles@[i],
                ),
    {
        let mut circles: Vec<Circle> = Vec::new();
        let mut index: usize = 0;
        while index < self.particles.len()
            invariant
                index <= self.particles@.len(),
                circles@.len() == index,
                forall|i: int|
                    0 <= i < index ==> (#[trigger] circles@[i]).depicts(self.particles@[i]),
            decreases self.particles@.len() - index,
        {
            circles.push(Circle::of(&self.particles[index]));
            index = index + 1;
        }
        Frame { width: self.width, height: self.height, circles }
    }
}

} // verus!
