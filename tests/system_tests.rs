use sora_no_wana::common::ID;
use sora_no_wana::math::icbrt;
use sora_no_wana::system::{
    assign_moons, capture_roche_limit_of, draw_body_count, generate_celestial_body,
    generate_moon_orbit, generate_system, hill_radius_of, resolve_roche_limits, roche_threshold,
    sort_by_mass_desc, BodySample, BodyType, BodyTypes, CelestialBodyBundle, OrbitBundle, Parent,
    SystemGenConfig, SystemGenError, SystemId, GAS_GIANT_MASS, MAX_ORBIT_POSITION,
    MAX_ORBIT_RADIUS, MIN_ORBIT_RADIUS, SOLAR_MASS,
};

fn body(name: &str, mass: u64, radius: u64, orbit: u64, parent: Option<usize>) -> CelestialBodyBundle {
    CelestialBodyBundle {
        id: ID(name.to_string()),
        system_id: SystemId(ID("sys".to_string())),
        mass,
        radius,
        body_type: BodyType(BodyTypes::Planet),
        orbit_bundle: OrbitBundle {
            orbit_radius: orbit,
            orbit_period: 0,
            orbit_position: 0,
            parent: Parent(parent),
        },
    }
}

#[test]
fn integer_cube_roots() {
    assert_eq!(icbrt(0), 0);
    assert_eq!(icbrt(1), 1);
    assert_eq!(icbrt(7), 1);
    assert_eq!(icbrt(8), 2);
    assert_eq!(icbrt(26), 2);
    assert_eq!(icbrt(27), 3);
    assert_eq!(icbrt(1_000_000_000_000_000_000), 1_000_000);
    assert_eq!(icbrt(999_999_999_999_999_999), 999_999);
}

#[test]
fn hill_radius_values() {
    // In millionths of a metre. Three solar masses: the cube-root factor is exactly one.
    assert_eq!(hill_radius_of(1_000_000_000, 3 * SOLAR_MASS), 1_000_000_000_000_000);
    // 3/8 of a solar mass: factor one half.
    assert_eq!(hill_radius_of(1_000_000_000, 3 * SOLAR_MASS / 8), 500_000_000_000_000);
    assert_eq!(hill_radius_of(1_000_000_000, 0), 0);
    // Far below a metre, yet positive: 2 mass units give a factor of cbrt(335) = 6 millionths.
    assert_eq!(hill_radius_of(1, 2), 6);
}

#[test]
fn capture_roche_limit_values() {
    assert_eq!(capture_roche_limit_of(1000, SOLAR_MASS), 2440);
    assert_eq!(capture_roche_limit_of(1000, SOLAR_MASS / 8), 1220);
    assert_eq!(capture_roche_limit_of(0, SOLAR_MASS), 0);
}

#[test]
fn roche_threshold_values() {
    let p = body("p", 8_000, 50, 0, None);
    let c = body("c", 1_000, 1000, 0, Some(0));
    // 2.44 * 1000 * (8000/1000)^(1/3) = 4880 m, scaled by 1.2; in thousandths of a metre.
    assert_eq!(roche_threshold(&p, &c, 1000), Some(4_880_000));
    assert_eq!(roche_threshold(&p, &c, 1200), Some(5_856_000));
    assert_eq!(roche_threshold(&p, &c, 1001), Some(4_884_880));
    assert_eq!(roche_threshold(&p, &c, 0), Some(0));
}

#[test]
fn roche_threshold_undefined_without_density() {
    let p = body("p", 8_000, 50, 0, None);
    let massless = body("c", 0, 1000, 0, Some(0));
    let pointlike = body("c", 1_000, 0, 0, Some(0));
    let flat_parent = body("p", 8_000, 0, 0, None);
    let c = body("c", 1_000, 1000, 0, Some(0));
    assert_eq!(roche_threshold(&p, &massless, 1000), None);
    assert_eq!(roche_threshold(&p, &pointlike, 1000), None);
    assert_eq!(roche_threshold(&flat_parent, &c, 1000), None);
}

#[test]
fn sorting_orders_by_descending_mass() {
    let v = vec![
        body("a", 5, 1, 1, None),
        body("b", 9, 1, 1, None),
        body("c", 1, 1, 1, None),
        body("d", 9, 1, 1, None),
        body("e", 7, 1, 1, None),
    ];
    let r = sort_by_mass_desc(v);
    let masses: Vec<u64> = r.iter().map(|b| b.mass).collect();
    assert_eq!(masses, vec![9, 9, 7, 5, 1]);
    let mut names: Vec<String> = r.iter().map(|b| b.id.0.clone()).collect();
    names.sort();
    assert_eq!(names, vec!["a", "b", "c", "d", "e"]);
}

#[test]
fn sorting_empty() {
    assert!(sort_by_mass_desc(Vec::new()).is_empty());
}

#[test]
fn moon_orbit_degenerate_when_roche_limit_reaches_separation() {
    assert_eq!(generate_moon_orbit(SOLAR_MASS, 1000, 2440), 0);
    assert_eq!(generate_moon_orbit(SOLAR_MASS, 1000, 100), 0);
    for _ in 0..100 {
        let r = generate_moon_orbit(SOLAR_MASS, 1000, 2441);
        assert_eq!(r, 2440);
        let r = generate_moon_orbit(SOLAR_MASS, 1000, 10_000);
        assert!(2440 <= r && r < 10_000);
    }
}

#[test]
fn heavy_body_captures_close_light_body() {
    // Hill radius of the parent: 1e9 m (three solar masses).
    let mut v = vec![
        body("p", 3 * SOLAR_MASS, 1000, 1_000_000_000, None),
        body("c", 1_000, 10, 1_500_000_000, None),
    ];
    assign_moons(&mut v);
    assert_eq!(v[0].orbit_bundle.parent, Parent(None));
    assert_eq!(v[1].orbit_bundle.parent, Parent(Some(0)));
    // Roche limit of the parent: 2.44 * 1000 * 3^(1/3) = 3519; separation 5e8.
    let r = v[1].orbit_bundle.orbit_radius;
    assert!(3519 <= r && r < 500_000_000);
    assert_eq!(v[1].mass, 1_000);
    assert_eq!(v[1].id.0, "c");
}

#[test]
fn distant_body_is_not_captured() {
    let mut v = vec![
        body("p", 3 * SOLAR_MASS, 1000, 1_000_000_000, None),
        body("c", 1_000, 10, 2_000_000_001, None),
    ];
    assign_moons(&mut v);
    assert_eq!(v[1].orbit_bundle.parent, Parent(None));
    assert_eq!(v[1].orbit_bundle.orbit_radius, 2_000_000_001);
}

#[test]
fn equal_mass_is_not_captured() {
    let mut v = vec![
        body("p", 3 * SOLAR_MASS, 1000, 1_000_000_000, None),
        body("c", 3 * SOLAR_MASS, 1000, 1_000_000_000, None),
    ];
    assign_moons(&mut v);
    assert_eq!(v[1].orbit_bundle.parent, Parent(None));
}

#[test]
fn identical_orbits_still_capture() {
    let mut v = vec![
        body("p", 3 * SOLAR_MASS, 1000, 1_000_000_000, None),
        body("c", 5, 10, 1_000_000_000, None),
    ];
    assign_moons(&mut v);
    assert_eq!(v[1].orbit_bundle.parent, Parent(Some(0)));
    // Separation 0 is within any Roche limit: the degenerate orbit.
    assert_eq!(v[1].orbit_bundle.orbit_radius, 0);
}

#[test]
fn sub_metre_hill_radius_still_captures_on_the_same_orbit() {
    let mut v = vec![body("p", 2, 1, 1, None), body("c", 1, 1, 1, None)];
    assign_moons(&mut v);
    assert_eq!(v[0].orbit_bundle.parent, Parent(None));
    assert_eq!(v[1].orbit_bundle.parent, Parent(Some(0)));
    assert_eq!(v[1].orbit_bundle.orbit_radius, 0);
}

#[test]
fn last_capture_wins() {
    let mut v = vec![
        body("a", 3 * SOLAR_MASS, 1000, 1_000_000_000, None),
        body("b", 2 * SOLAR_MASS, 1000, 1_000_000_000, None),
        body("c", 5, 10, 1_100_000_000, None),
    ];
    assign_moons(&mut v);
    // Both a and b capture c; b comes later and wins.
    assert_eq!(v[1].orbit_bundle.parent, Parent(Some(0)));
    assert_eq!(v[2].orbit_bundle.parent, Parent(Some(1)));
}

#[test]
fn roche_boundary_is_strict() {
    // Threshold of the child around the parent with factor 1.2: 5856.
    let mut v = vec![body("p", 8_000, 50, 0, None), body("c", 1_000, 1000, 5856, Some(0))];
    resolve_roche_limits(&mut v, 1200);
    assert_eq!(v[1].body_type, BodyType(BodyTypes::Planet));

    let mut v = vec![body("p", 8_000, 50, 0, None), body("c", 1_000, 1000, 5855, Some(0))];
    resolve_roche_limits(&mut v, 1200);
    assert_eq!(v[1].body_type, BodyType(BodyTypes::Ring));
}

#[test]
fn ring_threshold_is_not_rounded_down() {
    // Scaled limit 4884.88 m: an orbit of 4884 m lies inside it.
    let mut v = vec![body("p", 8_000, 50, 0, None), body("c", 1_000, 1000, 4884, Some(0))];
    resolve_roche_limits(&mut v, 1001);
    assert_eq!(v[1].body_type, BodyType(BodyTypes::Ring));

    let mut v = vec![body("p", 8_000, 50, 0, None), body("c", 1_000, 1000, 4885, Some(0))];
    resolve_roche_limits(&mut v, 1001);
    assert_eq!(v[1].body_type, BodyType(BodyTypes::Planet));
}

#[test]
fn ring_keeps_mass_radius_orbit_and_parent() {
    let mut v = vec![body("p", 8_000, 50, 7, None), body("c", 1_000, 1000, 100, Some(0))];
    resolve_roche_limits(&mut v, 1200);
    assert_eq!(v.len(), 2);
    assert_eq!(v[1].body_type, BodyType(BodyTypes::Ring));
    assert_eq!(v[1].mass, 1_000);
    assert_eq!(v[1].radius, 1000);
    assert_eq!(v[1].orbit_bundle.orbit_radius, 100);
    assert_eq!(v[1].orbit_bundle.parent, Parent(Some(0)));
    assert_eq!(v[0].body_type, BodyType(BodyTypes::Planet));
}

#[test]
fn zero_factor_never_makes_rings() {
    let mut v = vec![
        body("p", 8_000, 50, 7, None),
        body("c", 1_000, 1000, 0, Some(0)),
        body("d", 10, 1000, 1, Some(0)),
    ];
    resolve_roche_limits(&mut v, 0);
    for b in v.iter() {
        assert_eq!(b.body_type, BodyType(BodyTypes::Planet));
    }
}

#[test]
fn body_count_range() {
    let c = SystemGenConfig { min_bodies: 3, max_bodies: 6, roche_limit_factor: 1200 };
    for _ in 0..200 {
        let n = draw_body_count(&c).unwrap();
        assert!(3 <= n && n <= 6);
    }
    let one = SystemGenConfig { min_bodies: 1, max_bodies: 1, roche_limit_factor: 1200 };
    assert_eq!(draw_body_count(&one), Ok(1));
}

#[test]
fn inverted_body_count_range_is_an_error() {
    let c = SystemGenConfig { min_bodies: 6, max_bodies: 3, roche_limit_factor: 1200 };
    assert_eq!(draw_body_count(&c), Err(SystemGenError::EmptyBodyRange));
}

#[test]
fn default_config() {
    let c = SystemGenConfig::default();
    assert_eq!((c.min_bodies, c.max_bodies, c.roche_limit_factor), (5, 20, 1200));
}

#[test]
fn fresh_bodies() {
    let star = ID("star-1".to_string());
    for _ in 0..200 {
        let b = generate_celestial_body(BodySample { mass: 5_976_000_000, radius: 6371 }, &star);
        assert_eq!(b.body_type, BodyType(BodyTypes::Planet));
        assert_eq!(b.system_id.0 .0, "star-1");
        assert!(MIN_ORBIT_RADIUS <= b.orbit_bundle.orbit_radius);
        assert!(b.orbit_bundle.orbit_radius < MAX_ORBIT_RADIUS);
        assert!(b.orbit_bundle.orbit_position <= MAX_ORBIT_POSITION);
        assert_eq!(b.orbit_bundle.orbit_period, 0);
        assert_eq!(b.orbit_bundle.parent, Parent(None));
        assert_eq!(b.id.0.len(), 36);
    }
    let g = generate_celestial_body(BodySample { mass: GAS_GIANT_MASS + 1, radius: 1 }, &star);
    assert_eq!(g.body_type, BodyType(BodyTypes::GasGiant));
    let p = generate_celestial_body(BodySample { mass: GAS_GIANT_MASS, radius: 1 }, &star);
    assert_eq!(p.body_type, BodyType(BodyTypes::Planet));
}

#[test]
fn single_body_system_has_no_parent() {
    let star = ID("star-1".to_string());
    let c = SystemGenConfig { min_bodies: 1, max_bodies: 1, roche_limit_factor: 1200 };
    for _ in 0..50 {
        let n = draw_body_count(&c).unwrap();
        let samples = vec![BodySample { mass: 5_976_000_000, radius: 6371 }; n as usize];
        let r = generate_system(&star, &c, &samples);
        assert_eq!(r.len(), 1);
        assert_eq!(r[0].orbit_bundle.parent, Parent(None));
    }
}

#[test]
fn empty_system() {
    let star = ID("star-1".to_string());
    let c = SystemGenConfig::default();
    assert!(generate_system(&star, &c, &Vec::new()).is_empty());
}

#[test]
fn generated_systems_keep_their_invariants() {
    let star = ID("star-2".to_string());
    let c = SystemGenConfig::default();
    let samples: Vec<BodySample> = (1..=20u64)
        .map(|k| BodySample { mass: k * 3_000_000_000_000 + (k % 3) * 7, radius: 1000 + k })
        .collect();
    for _ in 0..20 {
        let r = generate_system(&star, &c, &samples);
        assert_eq!(r.len(), 20);
        for k in 0..r.len() {
            if k + 1 < r.len() {
                assert!(r[k].mass >= r[k + 1].mass);
            }
            assert_eq!(r[k].system_id.0 .0, "star-2");
            if let Some(p) = r[k].orbit_bundle.parent.0 {
                assert!(p < k);
                assert!(r[p].mass > r[k].mass);
            }
        }
    }
}
