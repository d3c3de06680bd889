use galaxy::arithmetic::{origin, Arithmetic};
use galaxy::body::{Body, Rules};
use galaxy::clamp::limit_length;
use galaxy::display::{placements, project};
use galaxy::force::{accelerations, pull};
use galaxy::integrate::advance;
use galaxy::tick::tick;
use glam::{DVec3, Vec3};

/// Double precision, as the simulation is meant to run.
#[derive(Clone, Copy, Debug)]
struct Doubles;

impl Arithmetic for Doubles {
    type Scalar = f64;
    type Vector = DVec3;
    type Placement = Vec3;

    fn number(n: u32) -> f64 {
        f64::from(n)
    }

    fn negated(a: f64) -> f64 {
        -a
    }

    fn product(a: f64, b: f64) -> f64 {
        a * b
    }

    fn quotient(a: f64, b: f64) -> f64 {
        a / b
    }

    fn power(a: f64, b: f64) -> f64 {
        a.powf(b)
    }

    fn exceeds(a: f64, b: f64) -> bool {
        a > b
    }

    fn arctangent(y: f64, x: f64) -> f64 {
        y.atan2(x)
    }

    fn cosine(angle: f64) -> f64 {
        angle.cos()
    }

    fn sine(angle: f64) -> f64 {
        angle.sin()
    }

    fn vector(x: f64, y: f64, z: f64) -> DVec3 {
        DVec3::new(x, y, z)
    }

    fn sum(a: DVec3, b: DVec3) -> DVec3 {
        a + b
    }

    fn difference(a: DVec3, b: DVec3) -> DVec3 {
        a - b
    }

    fn scaled(v: DVec3, k: f64) -> DVec3 {
        v * k
    }

    fn length(v: DVec3) -> f64 {
        v.length()
    }

    fn unit(v: DVec3) -> DVec3 {
        v.normalize()
    }

    fn narrowed(v: DVec3) -> Vec3 {
        v.as_f32()
    }
}

const G: f64 = 6.674e-11;
const D: f64 = 1.0e13;

/// The constants that the simulation ships with.
fn defaults() -> Rules<Doubles> {
    Rules {
        gravitation: G,
        anchor_mass: 0.0,
        mass_from: 1.0e29,
        mass_to: 1.0e32,
        diameter: D,
        time_scale: 1.0e14,
        spin: 1e-5,
        acceleration_limit: 1e-2,
        velocity_limit: 1e-1,
        softening: 1.0e1,
    }
}

/// Constants under which small whole numbers stay exact.
fn plain() -> Rules<Doubles> {
    Rules {
        gravitation: 1.0,
        anchor_mass: 0.0,
        mass_from: 1.0,
        mass_to: 2.0,
        diameter: 1000.0,
        time_scale: 3.0,
        spin: 1.0,
        acceleration_limit: 100.0,
        velocity_limit: 100.0,
        softening: 1.0,
    }
}

fn at_rest(position: DVec3, mass: f64) -> Body<Doubles> {
    Body { position, velocity: DVec3::ZERO, acceleration: DVec3::ZERO, mass }
}

#[test]
fn zero_mass_anchor_leaves_the_other_body_in_place() {
    let rules = defaults();
    let mut bodies = vec![at_rest(DVec3::ZERO, 0.0), at_rest(DVec3::new(1e12, 0.0, 0.0), 1e30)];
    let before = pull(&rules, bodies[1].position, &bodies[0]);
    assert_eq!(before.map(|t| t.length()), Some(0.0));
    let shown = tick(&rules, &mut bodies, 1.0);
    assert_eq!(bodies.len(), 2);
    assert_eq!(bodies[1].acceleration, DVec3::ZERO);
    assert_eq!(bodies[1].velocity, DVec3::ZERO);
    assert_eq!(bodies[1].position, DVec3::new(1e12, 0.0, 0.0));
    assert_eq!(bodies[1].mass, 1e30);
    assert_eq!(shown, vec![Vec3::new(0.0, 0.0, 0.0), Vec3::new(100.0, 0.0, 0.0)]);
}

#[test]
fn anchor_is_at_the_origin_after_every_tick() {
    let rules = defaults();
    let mut bodies = vec![
        Body {
            position: DVec3::new(4e12, -1e12, 2e11),
            velocity: DVec3::new(0.05, 0.02, -0.01),
            acceleration: DVec3::new(1e-3, 0.0, 0.0),
            mass: 5e31,
        },
        at_rest(DVec3::new(1e12, 0.0, 0.0), 1e30),
        at_rest(DVec3::new(0.0, -3e12, 5e11), 1e31),
    ];
    for elapsed in [0.016, 0.0, 1.0, 0.25] {
        let shown = tick(&rules, &mut bodies, elapsed);
        assert_eq!(bodies[0].position, DVec3::ZERO);
        assert_eq!(shown[0], Vec3::new(0.0, 0.0, 0.0));
        assert!(bodies[0].velocity.length() > 0.0);
    }
}

#[test]
fn bodies_within_the_threshold_do_not_pull() {
    let rules = defaults();
    let a = at_rest(DVec3::new(100.0, 0.0, 0.0), 1e30);
    let near = at_rest(DVec3::new(103.0, 4.0, 0.0), 1e31);
    let at_threshold = at_rest(DVec3::new(100.0, 10.0, 0.0), 1e31);
    assert_eq!(pull(&rules, a.position, &near), None);
    assert_eq!(pull(&rules, near.position, &a), None);
    assert_eq!(pull(&rules, a.position, &at_threshold), None);
    assert_eq!(pull(&rules, at_threshold.position, &a), None);
    let beyond = at_rest(DVec3::new(100.0, 10.5, 0.0), 1e31);
    assert!(pull(&rules, a.position, &beyond).is_some());

    let found = accelerations(&rules, &vec![a, near]);
    assert_eq!(found, vec![DVec3::ZERO, DVec3::ZERO]);
}

#[test]
fn body_on_top_of_another_does_not_pull() {
    let rules = defaults();
    let a = at_rest(DVec3::new(7.0, 7.0, 7.0), 1e30);
    let b = at_rest(DVec3::new(7.0, 7.0, 7.0), 1e31);
    let mut bodies = vec![at_rest(DVec3::ZERO, 0.0), a, b];
    tick(&rules, &mut bodies, 1.0);
    for body in &bodies[1..] {
        assert!(body.position.is_finite());
        assert_eq!(body.acceleration, DVec3::ZERO);
    }
}

#[test]
fn pull_is_the_displacement_over_the_distance_cubed() {
    let rules = plain();
    let source = at_rest(DVec3::new(2.0, 0.0, 0.0), 16.0);
    assert_eq!(pull(&rules, DVec3::ZERO, &source), Some(DVec3::new(4.0, 0.0, 0.0)));
    let target = DVec3::new(2.0, 3.0, 6.0);
    let back = at_rest(DVec3::ZERO, 343.0);
    assert_eq!(pull(&rules, target, &back), Some(DVec3::new(-2.0, -3.0, -6.0)));
    let heavier = Rules { gravitation: 3.0, ..plain() };
    assert_eq!(pull(&heavier, DVec3::ZERO, &source), Some(DVec3::new(12.0, 0.0, 0.0)));
}

#[test]
fn two_bodies_pull_toward_each_other() {
    let rules = defaults();
    let mut bodies =
        vec![at_rest(DVec3::ZERO, 2e30), at_rest(DVec3::new(3e11, 4e11, 1.2e12), 5e29)];
    let toward_second = (bodies[1].position - bodies[0].position).normalize();
    tick(&rules, &mut bodies, 0.0);
    let first = bodies[0].acceleration;
    let second = bodies[1].acceleration;
    assert!(first.length() > 0.0);
    assert!(second.length() > 0.0);
    assert!((first.normalize().dot(toward_second) - 1.0).abs() < 1e-12);
    assert!((second.normalize().dot(-toward_second) - 1.0).abs() < 1e-12);
}

#[test]
fn lighter_body_is_pulled_harder() {
    let rules = defaults();
    let light = at_rest(DVec3::ZERO, 5e29);
    let heavy = at_rest(DVec3::new(3e11, 4e11, 0.0), 2e30);
    let r = 5e11;
    let on_light = pull(&rules, light.position, &heavy).unwrap().length();
    let on_heavy = pull(&rules, heavy.position, &light).unwrap().length();
    let expected_on_light = G * 2e30 / (r * r);
    let expected_on_heavy = G * 5e29 / (r * r);
    assert!((on_light - expected_on_light).abs() <= 1e-12 * expected_on_light);
    assert!((on_heavy - expected_on_heavy).abs() <= 1e-12 * expected_on_heavy);
    assert!(on_light > on_heavy);
}

#[test]
fn sum_takes_the_sources_in_ascending_order() {
    let rules = Rules { softening: 0.5, ..plain() };
    let target = at_rest(DVec3::ZERO, 0.0);
    let big = at_rest(DVec3::new(1.0, 0.0, 0.0), 1e16);
    let opposite = at_rest(DVec3::new(-1.0, 0.0, 0.0), 1e16);
    let small = at_rest(DVec3::new(1.0, 0.0, 0.0), 1.0);
    // (0 + 1e16 - 1e16) + 1 is 1, while (0 + 1e16 + 1) - 1e16 is 0.
    let found = accelerations(&rules, &vec![target, big, opposite, small]);
    assert_eq!(found[0], DVec3::new(1.0, 0.0, 0.0));
    let found = accelerations(&rules, &vec![target, big, small, opposite]);
    assert_eq!(found[0], DVec3::new(0.0, 0.0, 0.0));
}

#[test]
fn accelerations_leave_out_the_body_itself() {
    let rules = plain();
    let only = at_rest(DVec3::new(5.0, 5.0, 5.0), 1e6);
    assert_eq!(accelerations(&rules, &vec![only]), vec![DVec3::ZERO]);
    assert_eq!(accelerations(&rules, &Vec::new()), Vec::<DVec3>::new());
}

#[test]
fn origin_is_the_zero_vector() {
    assert_eq!(origin::<Doubles>(), DVec3::new(0.0, 0.0, 0.0));
}

#[test]
fn short_vector_is_kept_as_it_is() {
    assert_eq!(limit_length::<Doubles>(DVec3::new(3.0, 0.0, 4.0), 5.0), DVec3::new(3.0, 0.0, 4.0));
    assert_eq!(limit_length::<Doubles>(DVec3::new(0.1, 0.2, 0.3), 1.0), DVec3::new(0.1, 0.2, 0.3));
}

#[test]
fn zero_vector_is_never_normalized() {
    let kept = limit_length::<Doubles>(DVec3::ZERO, 0.0);
    assert_eq!(kept, DVec3::ZERO);
    assert!(!kept.is_nan());
    assert_eq!(limit_length::<Doubles>(DVec3::ZERO, 1e-2), DVec3::ZERO);
}

#[test]
fn long_vector_is_rescaled_to_the_limit() {
    assert_eq!(limit_length::<Doubles>(DVec3::new(7.0, 0.0, 0.0), 5.0), DVec3::new(5.0, 0.0, 0.0));
    assert_eq!(
        limit_length::<Doubles>(DVec3::new(6.0, 0.0, 8.0), 5.0),
        DVec3::new(3.0000000000000004, 0.0, 4.0)
    );
    let v = DVec3::new(-2.0, 3.0, 6.0);
    assert_eq!(limit_length::<Doubles>(v, 3.5), v.normalize() * 3.5);
}

#[test]
fn rescaled_vector_is_at_the_limit_up_to_rounding() {
    let cut = limit_length::<Doubles>(DVec3::new(1.0, 1.0, 1.0), 0.01);
    assert_eq!(cut.length(), 0.010000000000000002);
    assert!(cut.length() <= 0.01 * (1.0 + 4.0 * f64::EPSILON));
}

#[test]
fn advance_follows_the_steps_in_order() {
    let rules = plain();
    let body = Body::<Doubles> {
        position: DVec3::new(10.0, 0.0, 0.0),
        velocity: DVec3::new(1.0, 0.0, 0.0),
        acceleration: DVec3::new(9.0, 9.0, 9.0),
        mass: 42.0,
    };
    let next = advance(&rules, &body, DVec3::new(0.5, 0.0, 0.0), 2.0);
    assert_eq!(next.acceleration, DVec3::new(0.5, 0.0, 0.0));
    assert_eq!(next.velocity, DVec3::new(1.5, 0.0, 0.0));
    // delta = 1.5 + 0.5 * 0.5, scaled by 2 * 3
    assert_eq!(next.position, DVec3::new(20.5, 0.0, 0.0));
    assert_eq!(next.mass, 42.0);
}

#[test]
fn advance_clamps_acceleration_then_velocity_then_position() {
    let rules = Rules { acceleration_limit: 0.25, velocity_limit: 1.0, diameter: 5.0, ..plain() };
    let body = Body::<Doubles> {
        position: DVec3::new(4.0, 0.0, 0.0),
        velocity: DVec3::new(1.0, 0.0, 0.0),
        acceleration: DVec3::ZERO,
        mass: 1.0,
    };
    let next = advance(&rules, &body, DVec3::new(0.5, 0.0, 0.0), 2.0);
    assert_eq!(next.acceleration, DVec3::new(0.25, 0.0, 0.0));
    // 1 + 0.25 is cut to 1
    assert_eq!(next.velocity, DVec3::new(1.0, 0.0, 0.0));
    // 4 + (1 + 0.125) * 6 is cut to 2 * 5
    assert_eq!(next.position, DVec3::new(10.0, 0.0, 0.0));
}

#[test]
fn the_two_limits_are_not_swapped() {
    let rules = Rules { acceleration_limit: 2.0, velocity_limit: 3.0, ..plain() };
    let body = at_rest(DVec3::ZERO, 1.0);
    let next = advance(&rules, &body, DVec3::new(10.0, 0.0, 0.0), 0.0);
    assert_eq!(next.acceleration, DVec3::new(2.0, 0.0, 0.0));
    assert_eq!(next.velocity, DVec3::new(2.0, 0.0, 0.0));
    let again = advance(&rules, &next, DVec3::new(10.0, 0.0, 0.0), 0.0);
    assert_eq!(again.acceleration, DVec3::new(2.0, 0.0, 0.0));
    assert_eq!(again.velocity, DVec3::new(3.0, 0.0, 0.0));
}

#[test]
fn velocity_takes_the_acceleration_whatever_time_went_by() {
    let rules = plain();
    let body = Body::<Doubles> {
        position: DVec3::new(1.0, 2.0, 3.0),
        velocity: DVec3::new(0.0, 1.0, 0.0),
        acceleration: DVec3::ZERO,
        mass: 1.0,
    };
    let still = advance(&rules, &body, DVec3::new(0.0, 0.0, 2.0), 0.0);
    assert_eq!(still.velocity, DVec3::new(0.0, 1.0, 2.0));
    assert_eq!(still.position, DVec3::new(1.0, 2.0, 3.0));
    let moved = advance(&rules, &body, DVec3::new(0.0, 0.0, 2.0), 100.0);
    assert_eq!(moved.velocity, DVec3::new(0.0, 1.0, 2.0));
}

#[test]
fn clamps_hold_after_a_tick() {
    let rules = defaults();
    let mut bodies = vec![
        at_rest(DVec3::ZERO, 1e32),
        Body {
            position: DVec3::new(1.9e13, 1e12, -3e11),
            velocity: DVec3::new(0.09, 0.05, 0.0),
            acceleration: DVec3::ZERO,
            mass: 1e32,
        },
        Body {
            position: DVec3::new(2e3, 1e3, 5e2),
            velocity: DVec3::new(-0.07, 0.07, 0.07),
            acceleration: DVec3::ZERO,
            mass: 1e29,
        },
        at_rest(DVec3::new(-4e12, 3e12, 1e12), 5e30),
    ];
    let slack = 1.0 + 4.0 * f64::EPSILON;
    let mut cut = [false; 3];
    for _ in 0..20 {
        tick(&rules, &mut bodies, 0.5);
        for body in &bodies {
            assert!(body.acceleration.length() <= 1e-2 * slack);
            assert!(body.velocity.length() <= 1e-1 * slack);
            assert!(body.position.length() <= 2.0 * D * slack);
            cut[0] |= body.acceleration.length() >= 1e-2 / slack;
            cut[1] |= body.velocity.length() >= 1e-1 / slack;
            cut[2] |= body.position.length() >= 2.0 * D / slack;
        }
    }
    // each of the three clamps did cut at some tick
    assert_eq!(cut, [true, true, true]);
}

#[test]
fn pulls_are_taken_from_the_positions_before_the_tick() {
    let rules = defaults();
    let start = vec![
        at_rest(DVec3::ZERO, 1e31),
        at_rest(DVec3::new(1e12, 0.0, 0.0), 1e30),
        at_rest(DVec3::new(0.0, 2e12, 0.0), 3e30),
        at_rest(DVec3::new(-1e12, -1e12, 5e11), 7e29),
    ];
    let found = accelerations(&rules, &start);
    let mut bodies = start.clone();
    tick(&rules, &mut bodies, 1.0);
    for i in 0..start.len() {
        let expected = advance(&rules, &start[i], found[i], 1.0);
        assert_eq!(bodies[i].acceleration, expected.acceleration);
        assert_eq!(bodies[i].velocity, expected.velocity);
        if i > 0 {
            assert_eq!(bodies[i].position, expected.position);
            assert!(bodies[i].position != start[i].position);
        }
    }
}

#[test]
fn masses_and_count_survive_a_tick() {
    let rules = defaults();
    let mut bodies = vec![
        at_rest(DVec3::ZERO, 0.0),
        at_rest(DVec3::new(1e12, 0.0, 0.0), 1e30),
        at_rest(DVec3::new(0.0, 2e12, 0.0), 3e30),
    ];
    for _ in 0..5 {
        let shown = tick(&rules, &mut bodies, 0.1);
        assert_eq!(bodies.len(), 3);
        assert_eq!(shown.len(), 3);
        assert_eq!(bodies[0].mass, 0.0);
        assert_eq!(bodies[1].mass, 1e30);
        assert_eq!(bodies[2].mass, 3e30);
    }
}

#[test]
fn tick_on_no_bodies_does_nothing() {
    let rules = defaults();
    let mut bodies: Vec<Body<Doubles>> = Vec::new();
    let shown = tick(&rules, &mut bodies, 1.0);
    assert!(bodies.is_empty());
    assert!(shown.is_empty());
}

#[test]
fn lone_anchor_is_pinned() {
    let rules = defaults();
    let mut bodies = vec![Body::<Doubles> {
        position: DVec3::new(1e12, 1e12, 1e12),
        velocity: DVec3::new(0.01, 0.0, 0.0),
        acceleration: DVec3::new(1.0, 1.0, 1.0),
        mass: 1e30,
    }];
    let shown = tick(&rules, &mut bodies, 1.0);
    assert_eq!(bodies[0].position, DVec3::ZERO);
    assert_eq!(bodies[0].acceleration, DVec3::ZERO);
    assert_eq!(bodies[0].velocity, DVec3::new(0.01, 0.0, 0.0));
    assert_eq!(shown, vec![Vec3::new(0.0, 0.0, 0.0)]);
}

fn bits(bodies: &[Body<Doubles>]) -> Vec<[u64; 10]> {
    bodies
        .iter()
        .map(|b| {
            [
                b.position.x.to_bits(),
                b.position.y.to_bits(),
                b.position.z.to_bits(),
                b.velocity.x.to_bits(),
                b.velocity.y.to_bits(),
                b.velocity.z.to_bits(),
                b.acceleration.x.to_bits(),
                b.acceleration.y.to_bits(),
                b.acceleration.z.to_bits(),
                b.mass.to_bits(),
            ]
        })
        .collect()
}

#[test]
fn same_start_and_same_ticks_give_the_same_bits() {
    let rules = defaults();
    let start = vec![
        at_rest(DVec3::ZERO, 0.0),
        Body {
            position: DVec3::new(1.3e12, -7.7e11, 2.1e10),
            velocity: DVec3::new(1e-5, 2e-5, 0.0),
            acceleration: DVec3::new(1e-5, 2e-5, 0.0),
            mass: 3.3e30,
        },
        at_rest(DVec3::new(-9.1e12, 4.4e12, -6.0e11), 8.1e31),
        at_rest(DVec3::new(5.5e11, 5.5e11, 5.5e11), 1.7e29),
        at_rest(DVec3::new(5.5e11, 5.5e11, 5.5e11 + 9.0), 2.9e30),
    ];
    let mut first = start.clone();
    let mut second = start.clone();
    for elapsed in [0.016, 0.017, 0.0, 0.5, 0.016, 2.0] {
        let shown_first = tick(&rules, &mut first, elapsed);
        let shown_second = tick(&rules, &mut second, elapsed);
        assert_eq!(bits(&first), bits(&second));
        assert_eq!(shown_first, shown_second);
    }
    assert!(bits(&first) != bits(&start));
}

#[test]
fn body_at_one_diameter_is_drawn_at_a_thousand() {
    let rules = defaults();
    assert_eq!(project(&rules, DVec3::new(D, 0.0, 0.0)), Vec3::new(1000.0, 0.0, 0.0));
    assert_eq!(project(&rules, DVec3::ZERO), Vec3::new(0.0, 0.0, 0.0));
}

#[test]
fn placements_follow_the_bodies_in_order() {
    let rules = defaults();
    let bodies = vec![
        at_rest(DVec3::new(D, 0.0, 0.0), 1.0),
        at_rest(DVec3::new(2.5e12, -5e12, 1e13), 1.0),
        at_rest(DVec3::new(1e12, 0.0, 0.0), 1.0),
    ];
    let shown = placements(&rules, &bodies);
    assert_eq!(
        shown,
        vec![
            Vec3::new(1000.0, 0.0, 0.0),
            Vec3::new(250.0, -500.0, 1000.0),
            Vec3::new(100.0, 0.0, 0.0)
        ]
    );
    assert_eq!(bodies[1].position, DVec3::new(2.5e12, -5e12, 1e13));
}

#[test]
fn scale_is_fixed_whatever_the_spread_of_the_bodies() {
    let rules = defaults();
    let close = vec![at_rest(DVec3::new(1e12, 0.0, 0.0), 1.0), at_rest(DVec3::new(1.1e12, 0.0, 0.0), 1.0)];
    let wide = vec![at_rest(DVec3::new(1e12, 0.0, 0.0), 1.0), at_rest(DVec3::new(-2e13, 2e13, 0.0), 1.0)];
    assert_eq!(placements(&rules, &close)[0], Vec3::new(100.0, 0.0, 0.0));
    assert_eq!(placements(&rules, &wide)[0], Vec3::new(100.0, 0.0, 0.0));
    assert_eq!(placements(&rules, &wide)[1], Vec3::new(-2000.0, 2000.0, 0.0));
}

#[test]
fn tick_returns_the_placements_of_the_new_positions() {
    let rules = defaults();
    let mut bodies = vec![
        at_rest(DVec3::ZERO, 1e31),
        at_rest(DVec3::new(1e12, 0.0, 0.0), 1e30),
        at_rest(DVec3::new(0.0, 2e12, 0.0), 3e30),
    ];
    let shown = tick(&rules, &mut bodies, 1.0);
    assert_eq!(shown, placements(&rules, &bodies));
}
