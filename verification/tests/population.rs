use galaxy_sim::config::Config;
use galaxy_sim::error::Error;
use galaxy_sim::formation::{create, Group, Request, Sample};
use galaxy_sim::galaxy::Galaxy;
use galaxy_sim::particle::{Particle, Vec3};
use galaxy_sim::population::{init_galaxy, Nursery};
use galaxy_sim::scalar::Scalar;
use rand::rngs::StdRng;
use rand::SeedableRng;

fn s(x: f32) -> Scalar {
    Scalar::from_bits(x.to_bits())
}

fn v(x: f32, y: f32, z: f32) -> Vec3 {
    Vec3::new(s(x), s(y), s(z))
}

fn init(amount: u32, at: f32) -> Galaxy {
    Galaxy::Init {
        center_pos: v(at, at, 0.0),
        center_vel: v(1e-14, 0.0, 0.0),
        center_mass: s(1e14),
        amount,
        normal: v(1.0, 0.0, 0.0),
    }
}

/// A sample that any request accepts, marked by `tag` so that the order of
/// placement can be read off the population.
fn answer(request: &Request, tag: f32) -> Sample {
    Sample { radius: request.radius.low, pos: v(tag, 0.0, 0.0), vel: v(0.0, tag, 0.0) }
}

/// Fills a nursery, answering request number `k` with tag `k`, and returns
/// the requests that were made.
fn fill(nursery: &mut Nursery, rng: &mut StdRng) -> Vec<Request> {
    let mut requests = Vec::new();
    while let Some(request) = nursery.request(rng) {
        let tag = requests.len() as f32;
        assert_eq!(nursery.place(&answer(&request, tag)), Ok(true));
        requests.push(request);
    }
    requests
}

#[test]
fn single_explicit_particle() {
    let galaxies =
        vec![Galaxy::Particle { pos: v(1.0, 2.0, 3.0), vel: v(0.0, 0.0, 0.0), mass: s(5.0) }];
    let nursery = init_galaxy(s(0.1), galaxies, Config::standard()).ok().unwrap();
    assert!(nursery.is_complete());
    assert_eq!(nursery.len(), 1);
    assert_eq!(nursery.request_with(0), None);
    let population = nursery.finish().unwrap();
    assert_eq!(
        population,
        vec![Particle {
            pos: v(1.0, 2.0, 3.0),
            vel: v(0.0, 0.0, 0.0),
            mass: s(5.0),
            calibrate: s(0.1)
        }]
    );
}

#[test]
fn two_empty_formations_yield_their_anchors() {
    let galaxies = vec![init(0, -2e-9), init(0, 2e-9)];
    let nursery = init_galaxy(s(0.1), galaxies, Config::standard()).ok().unwrap();
    assert!(nursery.is_complete());
    let mut rng = StdRng::seed_from_u64(0);
    assert_eq!(nursery.request(&mut rng), None);
    let population = nursery.finish().unwrap();
    assert_eq!(
        population,
        vec![
            Particle {
                pos: v(-2e-9, -2e-9, 0.0),
                vel: v(1e-14, 0.0, 0.0),
                mass: s(1e14),
                calibrate: s(0.1)
            },
            Particle {
                pos: v(2e-9, 2e-9, 0.0),
                vel: v(1e-14, 0.0, 0.0),
                mass: s(1e14),
                calibrate: s(0.1)
            },
        ]
    );
}

#[test]
fn no_descriptors_no_particles() {
    let nursery = init_galaxy(s(0.1), Vec::new(), Config::standard()).ok().unwrap();
    assert!(nursery.is_complete());
    assert_eq!(nursery.finish(), Some(Vec::new()));
}

#[test]
fn a_formation_of_ten_is_one_bulge_one_ring_eight_arm() {
    let mut nursery = init_galaxy(s(0.1), vec![init(10, 1.0)], Config::standard()).ok().unwrap();
    assert!(!nursery.is_complete());
    let mut rng = StdRng::seed_from_u64(7);
    let requests = fill(&mut nursery, &mut rng);
    let groups: Vec<Group> = requests.iter().map(|r| r.group).collect();
    let mut expected = vec![Group::Bulge, Group::Ring];
    expected.extend(vec![Group::Arm; 8]);
    assert_eq!(groups, expected);
    let config = Config::standard();
    assert_eq!(requests[0].radius, config.bulge.radius);
    assert_eq!(requests[1].radius, config.ring.radius);
    assert_eq!(requests[2].radius, config.arm.radius);
    assert!(nursery.is_complete());
    let population = nursery.finish().unwrap();
    assert_eq!(population.len(), 11);
    assert_eq!(population[0].mass, s(1e14));
    for (k, p) in population[1..].iter().enumerate() {
        assert_eq!(
            *p,
            Particle {
                pos: v(k as f32, 0.0, 0.0),
                vel: v(0.0, k as f32, 0.0),
                mass: s(1e8),
                calibrate: s(0.1)
            }
        );
        assert!(p.is_valid());
    }
}

#[test]
fn a_formation_of_ten_thousand_is_met_exactly() {
    let mut nursery =
        init_galaxy(s(0.1), vec![init(10000, 1.0), init(10000, 2.0)], Config::standard())
            .ok()
            .unwrap();
    let mut rng = StdRng::seed_from_u64(0);
    let requests = fill(&mut nursery, &mut rng);
    assert_eq!(requests.len(), 20000);
    for (k, r) in requests.iter().enumerate() {
        let within = k % 10000;
        let group = if within < 1000 {
            Group::Bulge
        } else if within < 2000 {
            Group::Ring
        } else {
            Group::Arm
        };
        assert_eq!(r.group, group);
        assert_eq!(r.descriptor, k / 10000);
        assert!(r.arm < 2);
    }
    assert_eq!(nursery.finish().unwrap().len(), 20002);
}

#[test]
fn a_count_that_is_no_multiple_falls_short() {
    let mut nursery = init_galaxy(s(0.1), vec![init(19, 1.0)], Config::standard()).ok().unwrap();
    let mut rng = StdRng::seed_from_u64(0);
    let requests = fill(&mut nursery, &mut rng);
    let groups: Vec<Group> = requests.iter().map(|r| r.group).collect();
    let mut expected = vec![Group::Bulge, Group::Ring];
    expected.extend(vec![Group::Arm; 12]);
    assert_eq!(groups, expected);
}

#[test]
fn anchors_come_first_and_formations_in_order() {
    let explicit = Galaxy::Particle { pos: v(9.0, 9.0, 9.0), vel: v(0.0, 0.0, 0.0), mass: s(3.0) };
    let galaxies = vec![init(10, 1.0), explicit, init(0, 2.0), init(20, 3.0)];
    let mut nursery = init_galaxy(s(0.25), galaxies, Config::standard()).ok().unwrap();
    assert_eq!(nursery.len(), 4);
    let mut rng = StdRng::seed_from_u64(1);
    let requests = fill(&mut nursery, &mut rng);
    assert_eq!(requests.len(), 30);
    for (k, r) in requests.iter().enumerate() {
        assert_eq!(r.descriptor, if k < 10 { 0 } else { 3 });
        let at = if k < 10 { 1.0 } else { 3.0 };
        assert_eq!(r.center_pos, v(at, at, 0.0));
        assert_eq!(r.center_vel, v(1e-14, 0.0, 0.0));
        assert_eq!(r.center_mass, s(1e14));
        assert_eq!(r.normal, v(1.0, 0.0, 0.0));
        assert_eq!(r.calibrate, s(0.25));
    }
    let population = nursery.finish().unwrap();
    assert_eq!(population.len(), 34);
    assert_eq!(population[0].pos, v(1.0, 1.0, 0.0));
    assert_eq!(population[1].pos, v(9.0, 9.0, 9.0));
    assert_eq!(population[1].mass, s(3.0));
    assert_eq!(population[2].pos, v(2.0, 2.0, 0.0));
    assert_eq!(population[3].pos, v(3.0, 3.0, 0.0));
    for k in 0..30 {
        assert_eq!(population[4 + k].pos, v(k as f32, 0.0, 0.0));
        assert_eq!(population[4 + k].calibrate, s(0.25));
    }
}

#[test]
fn requests_carry_the_dials() {
    let config = Config { arms: 5, density: s(3.0), noise: s(0.5), gravity: s(2.0), ..Config::standard() };
    let nursery = init_galaxy(s(0.1), vec![init(10, 1.0)], config).ok().unwrap();
    let request = nursery.request_with(4).unwrap();
    assert_eq!(
        request,
        Request {
            descriptor: 0,
            group: Group::Bulge,
            radius: config.bulge.radius,
            arm: 4,
            arms: 5,
            density: s(3.0),
            noise: s(0.5),
            gravity: s(2.0),
            calibrate: s(0.1),
            center_pos: v(1.0, 1.0, 0.0),
            center_vel: v(1e-14, 0.0, 0.0),
            center_mass: s(1e14),
            normal: v(1.0, 0.0, 0.0),
        }
    );
}

#[test]
fn drawn_arms_are_among_the_arms_and_not_all_the_same() {
    let config = Config { arms: 7, ..Config::standard() };
    let mut nursery = init_galaxy(s(0.1), vec![init(1000, 1.0)], config).ok().unwrap();
    let mut rng = StdRng::seed_from_u64(42);
    let requests = fill(&mut nursery, &mut rng);
    assert_eq!(requests.len(), 1000);
    let mut seen = [false; 7];
    for r in &requests {
        assert!(r.arm < 7);
        assert_eq!(r.arms, 7);
        seen[r.arm as usize] = true;
    }
    assert!(seen.iter().all(|&hit| hit));
}

#[test]
fn the_same_seed_gives_the_same_requests() {
    let mut runs: Vec<Vec<Request>> = Vec::new();
    for seed in [3u64, 3, 4] {
        let mut nursery =
            init_galaxy(s(0.1), vec![init(100, 1.0)], Config::standard()).ok().unwrap();
        let mut rng = StdRng::seed_from_u64(seed);
        runs.push(fill(&mut nursery, &mut rng));
    }
    assert_eq!(runs[0], runs[1]);
    assert_ne!(runs[0], runs[2]);
    assert_eq!(runs[0].len(), runs[2].len());
}

#[test]
fn the_same_samples_give_the_same_population() {
    let mut populations: Vec<Vec<Particle>> = Vec::new();
    for seed in [10u64, 11] {
        let mut nursery =
            init_galaxy(s(0.1), vec![init(50, 1.0), init(30, 2.0)], Config::standard())
                .ok()
                .unwrap();
        let mut rng = StdRng::seed_from_u64(seed);
        fill(&mut nursery, &mut rng);
        populations.push(nursery.finish().unwrap());
    }
    assert_eq!(populations[0], populations[1]);
}

#[test]
fn a_radius_outside_the_interval_is_turned_away() {
    let mut nursery = init_galaxy(s(0.1), vec![init(10, 1.0)], Config::standard()).ok().unwrap();
    let request = nursery.request_with(0).unwrap();
    let mut sample = answer(&request, 1.0);
    sample.radius = request.radius.high;
    assert_eq!(nursery.place(&sample), Ok(false));
    sample.radius = s(0.0);
    assert_eq!(nursery.place(&sample), Ok(false));
    sample.radius = s(f32::NAN);
    assert_eq!(nursery.place(&sample), Ok(false));
    assert_eq!(nursery.len(), 1);
    assert_eq!(nursery.request_with(0), Some(request));
    sample.radius = Scalar::from_bits(request.radius.high.to_bits() - 1);
    assert_eq!(nursery.place(&sample), Ok(true));
    assert_eq!(nursery.len(), 2);
    assert_eq!(nursery.request_with(0).unwrap().group, Group::Ring);
}

#[test]
fn a_bulge_radius_does_not_do_for_an_arm() {
    let mut nursery = init_galaxy(s(0.1), vec![init(5, 1.0)], Config::standard()).ok().unwrap();
    let request = nursery.request_with(1).unwrap();
    assert_eq!(request.group, Group::Arm);
    let sample = Sample { radius: s(5e-11), pos: v(1.0, 0.0, 0.0), vel: v(0.0, 0.0, 0.0) };
    assert_eq!(nursery.place(&sample), Ok(false));
    let sample = Sample { radius: s(7e-11), ..sample };
    assert_eq!(nursery.place(&sample), Ok(true));
}

#[test]
fn a_sample_that_is_not_finite_fails_the_build() {
    let galaxies = vec![
        Galaxy::Particle { pos: v(0.0, 0.0, 0.0), vel: v(0.0, 0.0, 0.0), mass: s(1.0) },
        init(10, 1.0),
    ];
    let mut nursery = init_galaxy(s(0.1), galaxies, Config::standard()).ok().unwrap();
    let request = nursery.request_with(0).unwrap();
    let mut sample = answer(&request, 1.0);
    sample.pos = v(f32::NAN, 0.0, 0.0);
    assert_eq!(nursery.place(&sample), Err(Error::InvalidDescriptor { index: 1 }));
    sample.pos = v(0.0, 0.0, 0.0);
    sample.vel = v(0.0, f32::INFINITY, 0.0);
    assert_eq!(nursery.place(&sample), Err(Error::InvalidDescriptor { index: 1 }));
    assert_eq!(nursery.len(), 2);
    assert_eq!(nursery.finish(), None);
}

#[test]
fn nothing_is_placed_once_complete() {
    let mut nursery = init_galaxy(s(0.1), vec![init(0, 1.0)], Config::standard()).ok().unwrap();
    let sample = Sample { radius: s(5e-11), pos: v(1.0, 0.0, 0.0), vel: v(0.0, 0.0, 0.0) };
    assert_eq!(nursery.place(&sample), Ok(false));
    let broken = Sample { pos: v(f32::NAN, 0.0, 0.0), ..sample };
    assert_eq!(nursery.place(&broken), Ok(false));
    assert_eq!(nursery.len(), 1);
}

#[test]
fn there_is_no_partial_population() {
    let mut nursery = init_galaxy(s(0.1), vec![init(10, 1.0)], Config::standard()).ok().unwrap();
    let request = nursery.request_with(0).unwrap();
    assert_eq!(nursery.place(&answer(&request, 0.0)), Ok(true));
    assert!(!nursery.is_complete());
    assert_eq!(nursery.finish(), None);
}

#[test]
fn invalid_descriptors_are_refused_with_their_index() {
    let good = init(10, 1.0);
    let explicit = |pos: Vec3, vel: Vec3, mass: f32| Galaxy::Particle { pos, vel, mass: s(mass) };
    let formation = |center_mass: f32, normal: Vec3| Galaxy::Init {
        center_pos: v(0.0, 0.0, 0.0),
        center_vel: v(0.0, 0.0, 0.0),
        center_mass: s(center_mass),
        amount: 10,
        normal,
    };
    let o = v(0.0, 0.0, 0.0);
    let bad = vec![
        explicit(o, o, -1.0),
        explicit(o, o, f32::NAN),
        explicit(v(f32::NAN, 0.0, 0.0), o, 1.0),
        explicit(o, v(0.0, 0.0, f32::NEG_INFINITY), 1.0),
        formation(-1e14, v(1.0, 0.0, 0.0)),
        formation(1e14, v(0.0, 0.0, 0.0)),
        formation(1e14, v(-0.0, 0.0, -0.0)),
        formation(1e14, v(1.0, f32::INFINITY, 0.0)),
        formation(1e14, v(f32::NAN, 0.0, 0.0)),
        Galaxy::Init {
            center_pos: v(0.0, f32::INFINITY, 0.0),
            center_vel: o,
            center_mass: s(1.0),
            amount: 0,
            normal: v(1.0, 0.0, 0.0),
        },
        Galaxy::Init {
            center_pos: o,
            center_vel: v(f32::NAN, 0.0, 0.0),
            center_mass: s(1.0),
            amount: 0,
            normal: v(1.0, 0.0, 0.0),
        },
    ];
    for b in bad {
        assert!(!b.is_valid());
        for index in 0..3 {
            let mut galaxies = vec![good; 3];
            galaxies[index] = b;
            galaxies.push(b);
            let r = init_galaxy(s(0.1), galaxies, Config::standard());
            assert_eq!(r.err(), Some(Error::InvalidDescriptor { index }));
        }
    }
}

#[test]
fn descriptors_at_the_edge_are_accepted() {
    let o = v(0.0, 0.0, 0.0);
    let edge = vec![
        Galaxy::Particle { pos: o, vel: o, mass: s(0.0) },
        Galaxy::Particle { pos: o, vel: o, mass: s(-0.0) },
        Galaxy::Particle { pos: v(f32::MAX, f32::MIN, 1e-45), vel: o, mass: s(1.0) },
        Galaxy::Init {
            center_pos: o,
            center_vel: o,
            center_mass: s(0.0),
            amount: 0,
            normal: v(0.0, 0.0, 1e-45),
        },
    ];
    for e in &edge {
        assert!(e.is_valid());
    }
    let nursery = init_galaxy(s(1e-45), edge, Config::standard()).ok().unwrap();
    assert_eq!(nursery.len(), 4);
    assert!(nursery.finish().unwrap().iter().all(|p| p.is_valid()));
}

#[test]
fn anchors_and_quotas_of_descriptors() {
    let config = Config::standard();
    let g = init(10000, 1.0);
    assert_eq!(g.satellites(&config), 10000);
    assert_eq!(init(15, 1.0).satellites(&config), 14);
    assert_eq!(
        g.anchor_particle(s(0.5)),
        Particle {
            pos: v(1.0, 1.0, 0.0),
            vel: v(1e-14, 0.0, 0.0),
            mass: s(1e14),
            calibrate: s(0.5)
        }
    );
    let p = Galaxy::Particle { pos: v(1.0, 2.0, 3.0), vel: v(4.0, 5.0, 6.0), mass: s(7.0) };
    assert_eq!(p.satellites(&config), 0);
    assert_eq!(
        p.anchor_particle(s(0.5)),
        Particle { pos: v(1.0, 2.0, 3.0), vel: v(4.0, 5.0, 6.0), mass: s(7.0), calibrate: s(0.5) }
    );
}

#[test]
fn create_appends_one_satellite() {
    let mut particles = vec![Particle::new(v(0.0, 0.0, 0.0), v(0.0, 0.0, 0.0), s(1.0), s(0.1))];
    let sample = Sample { radius: s(5e-11), pos: v(1.0, 2.0, 3.0), vel: v(4.0, 5.0, 6.0) };
    assert!(sample.is_finite());
    create(&mut particles, s(0.1), s(1e8), &sample);
    assert_eq!(particles.len(), 2);
    assert_eq!(
        particles[1],
        Particle { pos: v(1.0, 2.0, 3.0), vel: v(4.0, 5.0, 6.0), mass: s(1e8), calibrate: s(0.1) }
    );
}
