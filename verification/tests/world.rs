use particles::color::Rgba;
use particles::particle::{Particle, Position};
use particles::units::{JITTER_LIMIT, UNITS_PER_PIXEL};
use particles::velocity::Velocity;
use particles::world::{Circle, Frame, World};

const WHITE: Rgba = Rgba { red: 255, green: 255, blue: 255, alpha: 128 };

fn px(pixels: i64) -> i64 {
    pixels * UNITS_PER_PIXEL
}

fn dot_at(x: i64, y: i64, size: u32, alpha: u8) -> Particle {
    Particle {
        position: Position { x, y },
        velocity: Velocity { x: 10_000, y: -10_000, x_delta: 0, y_delta: 0 },
        size,
        color: Rgba { red: 255, green: 255, blue: 255, alpha },
        color_target: WHITE,
    }
}

#[test]
fn new_world_of_five_hundred_dots() {
    let world = World::new(800, 600, 500);
    assert_eq!(world.width, 800);
    assert_eq!(world.height, 600);
    assert_eq!(world.particles.len(), 500);
    for dot in &world.particles {
        assert!(0 <= dot.position.x && dot.position.x < px(800));
        assert!(0 <= dot.position.y && dot.position.y < px(600));
        assert_eq!(dot.position.x % UNITS_PER_PIXEL, 0);
        assert_eq!(dot.position.y % UNITS_PER_PIXEL, 0);
    }
}

#[test]
fn new_world_has_as_many_dots_as_asked() {
    for count in [0usize, 1, 2, 17, 1_000] {
        let world = World::new(320, 200, count);
        assert_eq!(world.particles.len(), count);
    }
}

#[test]
fn new_dots_start_in_the_starting_color_with_that_target() {
    let world = World::new(320, 200, 300);
    for dot in &world.particles {
        assert_eq!(dot.color, WHITE);
        assert_eq!(dot.color_target, WHITE);
    }
}

#[test]
fn new_dots_drift_up_and_right_within_the_jitter_limit() {
    let world = World::new(320, 200, 300);
    for dot in &world.particles {
        assert!(0 <= dot.velocity.x && dot.velocity.x < JITTER_LIMIT);
        assert!(-JITTER_LIMIT <= dot.velocity.y && dot.velocity.y < 0);
        assert!(dot.velocity.x_delta.abs() <= JITTER_LIMIT);
        assert!(dot.velocity.y_delta.abs() <= JITTER_LIMIT);
        assert!(2 <= dot.size && dot.size < 7);
    }
}

#[test]
fn new_dots_are_spread_over_the_viewport() {
    let world = World::new(800, 600, 500);
    let first = world.particles[0];
    assert!(world.particles.iter().any(|dot| dot.position.x != first.position.x));
    assert!(world.particles.iter().any(|dot| dot.position.y != first.position.y));
    assert!(world.particles.iter().any(|dot| dot.position.x > px(400)));
    assert!(world.particles.iter().any(|dot| dot.position.x < px(400)));
    assert!(world.particles.iter().any(|dot| dot.velocity != first.velocity));
    assert!(world.particles.iter().any(|dot| dot.size != first.size));
}

#[test]
fn new_world_with_an_empty_viewport_seeds_at_the_origin() {
    let world = World::new(0, 0, 50);
    assert_eq!(world.particles.len(), 50);
    for dot in &world.particles {
        assert_eq!(dot.position, Position { x: 0, y: 0 });
    }
    let column = World::new(1, 0, 50);
    for dot in &column.particles {
        assert_eq!(dot.position, Position { x: 0, y: 0 });
    }
}

#[test]
fn first_update_keeps_alpha_and_draws_targets() {
    let mut world = World::new(800, 600, 500);
    world.update();
    for dot in &world.particles {
        assert_eq!(dot.color, WHITE);
    }
    assert!(world.particles.iter().any(|dot| dot.color_target != WHITE));
}

#[test]
fn update_keeps_population_and_viewport() {
    let mut world = World::new(640, 480, 123);
    for _ in 0..50 {
        world.update();
        assert_eq!(world.particles.len(), 123);
        assert_eq!((world.width, world.height), (640, 480));
    }
}

#[test]
fn update_advances_every_dot_on_its_own() {
    let mut world = World::new(640, 480, 200);
    for _ in 0..20 {
        let before = world.particles.clone();
        world.update();
        for (old, new) in before.iter().zip(&world.particles) {
            let mut expected = *old;
            expected.advance(
                640,
                480,
                new.color_target.alpha,
                new.velocity.x_delta,
                new.velocity.y_delta,
            );
            assert_eq!(*new, expected);
        }
    }
}

#[test]
fn dots_stay_within_reach_of_the_band() {
    let mut world = World::new(100, 80, 100);
    for _ in 0..2_000 {
        world.update();
        for dot in &world.particles {
            let reach_x = dot.velocity.x.abs() as i64;
            let reach_y = dot.velocity.y.abs() as i64;
            assert!(px(-15) - reach_x <= dot.position.x && dot.position.x <= px(115) + reach_x);
            assert!(px(-15) - reach_y <= dot.position.y && dot.position.y <= px(95) + reach_y);
        }
    }
}

#[test]
fn resizing_moves_no_dot() {
    let mut world = World::new(800, 600, 100);
    world.update();
    let before = world.particles.clone();
    world.width = 400;
    world.height = 300;
    assert_eq!(world.particles, before);
}

#[test]
fn resizing_changes_where_the_next_update_wraps() {
    let mut world = World { width: 800, height: 600, particles: vec![dot_at(px(810), px(590), 3, 128)] };
    world.update();
    let inside = world.particles[0];
    assert_eq!(inside.position.x, px(810) + inside.velocity.x as i64);
    assert_eq!(inside.position.y, px(590) + inside.velocity.y as i64);

    let mut shrunk = World { width: 800, height: 600, particles: vec![dot_at(px(810), px(590), 3, 128)] };
    shrunk.width = 700;
    shrunk.height = 500;
    assert_eq!(shrunk.particles[0].position, Position { x: px(810), y: px(590) });
    shrunk.update();
    let moved = shrunk.particles[0];
    assert_eq!(moved.position.x, px(-15) + moved.velocity.x as i64);
    assert_eq!(moved.position.y, px(-15) + moved.velocity.y as i64);
}

#[test]
fn growing_the_viewport_keeps_dots_inside_the_old_one_in_place() {
    let mut world = World { width: 800, height: 600, particles: vec![dot_at(px(400), px(300), 3, 128)] };
    world.width = 1_600;
    world.height = 1_200;
    world.update();
    let dot = world.particles[0];
    assert_eq!(dot.position.x, px(400) + dot.velocity.x as i64);
    assert_eq!(dot.position.y, px(300) + dot.velocity.y as i64);
}

#[test]
fn render_clears_the_viewport_and_draws_dots_in_order() {
    let world = World {
        width: 800,
        height: 600,
        particles: vec![
            dot_at(px(10) + 499_999, px(20), 2, 128),
            dot_at(px(10), px(20) + 1, 6, 0),
            dot_at(0, 0, 4, 255),
        ],
    };
    let frame = world.render();
    assert_eq!(
        frame,
        Frame {
            width: 800,
            height: 600,
            circles: vec![
                Circle { x: 10, y: 20, radius: 2, fill: String::from("#ffffff80") },
                Circle { x: 10, y: 20, radius: 6, fill: String::from("#ffffff00") },
                Circle { x: 0, y: 0, radius: 4, fill: String::from("#ffffffff") },
            ],
        }
    );
}

#[test]
fn render_rounds_off_screen_dots_down() {
    let world = World {
        width: 10,
        height: 10,
        particles: vec![dot_at(-1, px(-15), 3, 128), dot_at(px(-3) - 1, px(25) - 1, 3, 128)],
    };
    let frame = world.render();
    assert_eq!((frame.circles[0].x, frame.circles[0].y), (-1, -15));
    assert_eq!((frame.circles[1].x, frame.circles[1].y), (-4, 24));
}

#[test]
fn render_of_an_empty_world_only_clears() {
    let world = World::new(320, 200, 0);
    let frame = world.render();
    assert_eq!(frame, Frame { width: 320, height: 200, circles: vec![] });
}

#[test]
fn render_follows_a_resize() {
    let mut world = World::new(320, 200, 5);
    world.width = 1_024;
    world.height = 768;
    let frame = world.render();
    assert_eq!((frame.width, frame.height), (1_024, 768));
    assert_eq!(frame.circles.len(), 5);
}

#[test]
fn circle_of_a_dot() {
    let dot = dot_at(px(7) + 3, px(-2), 5, 0x1f);
    let circle = Circle::of(&dot);
    assert_eq!(circle, Circle { x: 7, y: -2, radius: 5, fill: String::from("#ffffff1f") });
}
