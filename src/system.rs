//! Planetary systems: body sampling, mass ordering, moon capture by Hill-sphere
//! dominance, and Roche-limit disruption of moons into rings.
//!
//! Units: mass in units of 10^15 kg, body radius in km, orbit radius in metres,
//! orbit position in microradians. The Roche and Hill formulas compare a radius
//! in km with a separation in metres; that mix is part of the model.
use crate::common::ID;
use crate::math::{cbrt, icbrt, lemma_cbrt_positive, CBRT_INPUT_LIMIT};
use crate::random::random_u64_in;
use vstd::arithmetic::div_mod::lemma_div_is_ordered;
use vstd::multiset::Multiset;
use vstd::prelude::*;

verus! {

broadcast use vstd::seq_lib::group_to_multiset_ensures;

/// 10^15 kg: the unit of `CelestialBodyBundle::mass`.
pub const MASS_UNIT_KG: u64 = 1_000_000_000_000_000;

/// One solar mass, 1.989e30 kg, in mass units.
pub const SOLAR_MASS: u64 = 1_989_000_000_000_000;

/// A tenth of Jupiter's mass (1.898e27 kg), in mass units: heavier bodies are gas giants.
pub const GAS_GIANT_MASS: u64 = 189_800_000_000;

/// One astronomical unit in metres.
pub const AU: u64 = 149_597_870_700;

/// Bodies orbit their star at least 0.1 AU out.
pub const MIN_ORBIT_RADIUS: u64 = AU / 10;

/// ... and less than 1500 AU out.
pub const MAX_ORBIT_RADIUS: u64 = 1500 * AU;

/// The largest orbit position, in microradians, below a full turn.
pub const MAX_ORBIT_POSITION: u64 = 6_283_185;

/// Fixed-point scale of cube-root factors.
pub const FIXED: u128 = 1_000_000;

/// `FIXED` cubed: a ratio is multiplied by it before its cube root is taken.
pub const FIXED_CUBED: u128 = 1_000_000_000_000_000_000;

/// The classification of a body, refined after generation.
#[derive(PartialEq, Eq, Structural, Clone, Copy, Debug)]
pub enum BodyTypes {
    Planet,
    GasGiant,
    Moon,
    AsteroidBelt,
    Ring,
}

#[derive(PartialEq, Eq, Structural, Clone, Copy, Debug)]
pub struct BodyType(pub BodyTypes);

/// The identity of the star that owns a body.
pub struct SystemId(pub ID);

/// The body this one orbits, as an index into its system's body list; `None`
/// when it orbits the star directly.
#[derive(PartialEq, Eq, Structural, Clone, Copy, Debug)]
pub struct Parent(pub Option<usize>);

pub struct OrbitBundle {
    /// Distance from the primary, in metres.
    pub orbit_radius: u64,
    /// Reserved: never computed, always zero.
    pub orbit_period: u64,
    /// Angular position, in microradians.
    pub orbit_position: u64,
    pub parent: Parent,
}

pub struct CelestialBodyBundle {
    pub id: ID,
    pub system_id: SystemId,
    /// In units of 10^15 kg.
    pub mass: u64,
    /// In km.
    pub radius: u64,
    pub body_type: BodyType,
    pub orbit_bundle: OrbitBundle,
}

/// Bodies are ordered from the most to the least massive.
pub open spec fn sorted_by_mass_desc(s: Seq<CelestialBodyBundle>) -> bool {
    forall|i: int, j: int| 0 <= i < j < s.len() ==> s[i].mass >= s[j].mass
}

/// The Hill radius of a body on an orbit of `orbit` metres with `mass`:
/// `orbit * (mass / (3 * solar mass))^(1/3)`, in millionths of a metre. It is
/// not rounded to whole metres, so that a tiny Hill radius stays positive.
pub open spec fn hill_radius(orbit: int, mass: int) -> int {
    orbit * cbrt(mass * FIXED_CUBED / (3 * SOLAR_MASS))
}

/// `|a - b|`.
pub open spec fn separation(a: int, b: int) -> int {
    if a >= b {
        a - b
    } else {
        b - a
    }
}

/// The Roche limit that bounds a captured moon's orbit from below:
/// `2.44 * radius * (mass / solar mass)^(1/3)`.
pub open spec fn capture_roche_limit(radius: int, mass: int) -> int {
    244 * (radius * cbrt(mass * FIXED_CUBED / SOLAR_MASS as int)) / (100 * FIXED) as int
}

/// The density-based Roche limit of `child` around `parent`:
/// `2.44 * R_p * (rho_p / rho_c)^(1/3)`. With `rho = m / R^3` this is
/// `2.44 * R_c * (m_p / m_c)^(1/3)`. Undefined (`None`) when a density is:
/// a radius of zero, or a child without mass.
pub open spec fn tidal_limit(parent: CelestialBodyBundle, child: CelestialBodyBundle) -> Option<int> {
    if parent.radius == 0 || child.radius == 0 || child.mass == 0 {
        None
    } else {
        Some(
            244 * (child.radius * cbrt(parent.mass * FIXED_CUBED / child.mass as int)) / (100
                * FIXED) as int,
        )
    }
}

/// The orbit radius below which `child` is torn into a ring: the tidal limit
/// scaled by `factor` thousandths, in thousandths of a metre (not rounded).
pub open spec fn ring_threshold(
    parent: CelestialBodyBundle,
    child: CelestialBodyBundle,
    factor: u32,
) -> Option<int> {
    match tidal_limit(parent, child) {
        Some(l) => Some(l * factor),
        None => None,
    }
}

proof fn lemma_mul_bound(a: int, b: int, x: int, y: int)
    requires
        0 <= a <= x,
        0 <= b <= y,
    ensures
        0 <= a * b <= x * y,
{
    assert(0 <= a * b <= x * y) by (nonlinear_arith)
        requires
            0 <= a <= x,
            0 <= b <= y,
    ;
}

/// The Hill radius, in millionths of a metre, of a body on orbit `orbit` (m)
/// with `mass` (mass units).
pub fn hill_radius_of(orbit: u64, mass: u64) -> (r: u128)
    ensures
        r == hill_radius(orbit as int, mass as int),
{
    let q: u128 = (mass as u128) * FIXED_CUBED / (3 * SOLAR_MASS as u128);
    let c = icbrt(q);
    proof {
        lemma_mul_bound(orbit as int, c as int, 0x1_0000_0000_0000_0000, 0x400_0000_0000);
    }
    (orbit as u128) * (c as u128)
}

/// The Roche limit bounding a moon's orbit around a parent of `radius` (km)
/// and `mass` (mass units).
pub fn capture_roche_limit_of(radius: u64, mass: u64) -> (r: u128)
    ensures
        r == capture_roche_limit(radius as int, mass as int),
{
    let q: u128 = (mass as u128) * FIXED_CUBED / (SOLAR_MASS as u128);
    let c = icbrt(q);
    proof {
        lemma_mul_bound(radius as int, c as int, 0x1_0000_0000_0000_0000, 0x400_0000_0000);
    }
    244 * ((radius as u128) * (c as u128)) / (100 * FIXED)
}

/// The ring threshold of `child` around `parent`, in thousandths of a metre;
/// `None` where a density is undefined.
pub fn roche_threshold(parent: &CelestialBodyBundle, child: &CelestialBodyBundle, factor: u32) -> (r:
    Option<u128>)
    ensures
        match r {
            Some(t) => ring_threshold(*parent, *child, factor) == Some(t as int),
            None => ring_threshold(*parent, *child, factor) is None,
        },
{
    if parent.radius == 0 || child.radius == 0 || child.mass == 0 {
        return None;
    }
    let q: u128 = (parent.mass as u128) * FIXED_CUBED / (child.mass as u128);
    let c = icbrt(q);
    proof {
        lemma_mul_bound(child.radius as int, c as int, 0x1_0000_0000_0000_0000, 0x400_0000_0000);
    }
    let p: u128 = (child.radius as u128) * (c as u128);
    let limit: u128 = 244 * p / (100 * FIXED);
    proof {
        assert(p <= 0x1_0000_0000_0000_0000 * 0x400_0000_0000);
        lemma_div_is_ordered(244 * p as int, 244 * 0x1_0000_0000_0000_0000int * 0x400_0000_0000int, 100 * FIXED as int);
        assert(limit < 0x400_0000_0000_0000_0000_0000);
        lemma_mul_bound(limit as int, factor as int, 0x400_0000_0000_0000_0000_0000, 0x1_0000_0000);
    }
    Some(limit * (factor as u128))
}

/// Orders bodies from the most to the least massive.
pub fn sort_by_mass_desc(bodies: Vec<CelestialBodyBundle>) -> (r: Vec<CelestialBodyBundle>)
    ensures
        r@.to_multiset() == bodies@.to_multiset(),
        r@.len() == bodies@.len(),
        sorted_by_mass_desc(r@),
{
    let mut input = bodies;
    let mut out: Vec<CelestialBodyBundle> = Vec::new();
    while input.len() > 0
        invariant
            sorted_by_mass_desc(out@),
            out@.to_multiset().add(input@.to_multiset()) == bodies@.to_multiset(),
        decreases input.len(),
    {
        let ghost before = input@;
        let x = input.pop().unwrap();
        assert(before == input@.push(x));
        let mut k: usize = 0;
        while k < out.len() && out[k].mass >= x.mass
            invariant
                k <= out.len(),
                forall|i: int| 0 <= i < k ==> out@[i].mass >= x.mass,
            decreases out.len() - k,
        {
            k = k + 1;
        }
        let ghost prev = out@;
        out.insert(k, x);
        proof {
            assert(out@ == prev.insert(k as int, x));
            prev.insert_ensures(k as int, x);
            assert forall|i: int, j: int| 0 <= i < j < out@.len() implies out@[i].mass
                >= out@[j].mass by {
                if j < k {
                } else if j == k {
                } else if i < k {
                    assert(out@[j] == prev[j - 1]);
                    assert(prev[k as int].mass < x.mass);
                } else if i == k {
                    assert(out@[j] == prev[j - 1]);
                    assert(prev[k as int].mass < x.mass);
                } else {
                    assert(out@[j] == prev[j - 1]);
                    assert(out@[i] == prev[i - 1]);
                }
            }
        }
    }
    assert(input@.to_multiset() =~= Multiset::empty());
    assert(out@.to_multiset().len() == bodies@.to_multiset().len());
    out
}

/// `parent` captures `child`: the child orbits the star directly, lies within
/// the parent's Hill radius, and is strictly lighter.
pub open spec fn captures(parent: CelestialBodyBundle, child: CelestialBodyBundle) -> bool {
    &&& child.orbit_bundle.parent.0 is None
    &&& separation(child.orbit_bundle.orbit_radius as int, parent.orbit_bundle.orbit_radius as int)
        * FIXED < hill_radius(parent.orbit_bundle.orbit_radius as int, parent.mass as int)
    &&& child.mass < parent.mass
}

/// The last body before index `k` that captures body `j`.
pub open spec fn last_captor(s: Seq<CelestialBodyBundle>, j: int, k: int) -> Option<int>
    decreases k,
{
    if k <= 0 {
        None
    } else if captures(s[k - 1], s[j]) {
        Some(k - 1)
    } else {
        last_captor(s, j, k - 1)
    }
}

/// The parent body `j` ends up with: of the heavier bodies before it that
/// capture it, the last one (the last capture recorded wins).
pub open spec fn captor(s: Seq<CelestialBodyBundle>, j: int) -> Option<int> {
    last_captor(s, j, j)
}

pub proof fn lemma_last_captor(s: Seq<CelestialBodyBundle>, j: int, k: int)
    ensures
        last_captor(s, j, k) matches Some(i) ==> 0 <= i < k && captures(s[i], s[j]),
    decreases k,
{
    if k > 0 {
        lemma_last_captor(s, j, k - 1);
    }
}

/// No body of `s` has a parent.
pub open spec fn all_orbit_star(s: Seq<CelestialBodyBundle>) -> bool {
    forall|j: int| 0 <= j < s.len() ==> (#[trigger] s[j]).orbit_bundle.parent.0 is None
}

/// Every parent comes earlier in the list and is strictly heavier.
pub open spec fn parents_heavier(s: Seq<CelestialBodyBundle>) -> bool {
    forall|j: int|
        0 <= j < s.len() ==> match (#[trigger] s[j].orbit_bundle.parent).0 {
            Some(p) => p < j && s[p as int].mass > s[j].mass,
            None => true,
        }
}

/// `b` is `a` moved to orbit `parent` at `orbit_radius`; all else is kept.
pub open spec fn moved_orbit(
    a: CelestialBodyBundle,
    b: CelestialBodyBundle,
    parent: Option<usize>,
    orbit_radius: u64,
) -> bool {
    &&& b.id == a.id
    &&& b.system_id == a.system_id
    &&& b.mass == a.mass
    &&& b.radius == a.radius
    &&& b.body_type == a.body_type
    &&& b.orbit_bundle.orbit_period == a.orbit_bundle.orbit_period
    &&& b.orbit_bundle.orbit_position == a.orbit_bundle.orbit_position
    &&& b.orbit_bundle.parent == Parent(parent)
    &&& b.orbit_bundle.orbit_radius == orbit_radius
}

/// A moon orbit drawn for a parent with Roche limit `limit` at separation
/// `sep`: zero when the limit reaches the separation, else in `[limit, sep)`.
pub open spec fn valid_moon_orbit(limit: int, sep: int, r: int) -> bool {
    if limit >= sep {
        r == 0
    } else {
        limit <= r < sep
    }
}

/// The orbit radius of a moon captured at `max_distance` by a parent of
/// `parent_mass` and `parent_radius`.
pub fn generate_moon_orbit(parent_mass: u64, parent_radius: u64, max_distance: u64) -> (r: u64)
    ensures
        valid_moon_orbit(
            capture_roche_limit(parent_radius as int, parent_mass as int),
            max_distance as int,
            r as int,
        ),
{
    let limit = capture_roche_limit_of(parent_radius, parent_mass);
    if limit >= max_distance as u128 {
        return 0;
    }
    random_u64_in(limit as u64, max_distance - 1)
}

/// `rec` holds the last capture of body `j` among the bodies before `k`,
/// with the separation it was recorded at.
spec fn record_matches(s: Seq<CelestialBodyBundle>, rec: Option<(usize, u64)>, j: int, k: int) -> bool {
    match last_captor(s, j, k) {
        None => rec is None,
        Some(i) => rec == Some(
            (
                i as usize,
                separation(
                    s[j].orbit_bundle.orbit_radius as int,
                    s[i].orbit_bundle.orbit_radius as int,
                ) as u64,
            ),
        ),
    }
}

/// The outcome of moon capture on `s`: each body with a captor is moved to
/// orbit it, at a valid moon orbit; every other body is unchanged.
pub open spec fn moons_assigned(s: Seq<CelestialBodyBundle>, t: Seq<CelestialBodyBundle>) -> bool {
    &&& t.len() == s.len()
    &&& forall|j: int|
        0 <= j < s.len() ==> match captor(s, j) {
            Some(i) => moved_orbit(
                s[j],
                #[trigger] t[j],
                Some(i as usize),
                t[j].orbit_bundle.orbit_radius,
            ) && valid_moon_orbit(
                capture_roche_limit(s[i].radius as int, s[i].mass as int),
                separation(
                    s[j].orbit_bundle.orbit_radius as int,
                    s[i].orbit_bundle.orbit_radius as int,
                ),
                t[j].orbit_bundle.orbit_radius as int,
            ),
            None => t[j] == s[j],
        }
}

/// Every body keeps its mass and its owning system.
pub open spec fn keeps_mass_and_system(s: Seq<CelestialBodyBundle>, t: Seq<CelestialBodyBundle>) -> bool {
    &&& t.len() == s.len()
    &&& forall|k: int|
        0 <= k < s.len() ==> (#[trigger] t[k]).mass == s[k].mass && t[k].system_id == s[k].system_id
}

/// Moon capture. Every heavier body is tested, against the list as it was,
/// for every lighter body after it that orbits the star; the last capture of
/// a body wins. Each captured body gets its captor as parent and a new orbit
/// between the captor's Roche limit and the recorded separation.
pub fn assign_moons(bodies: &mut Vec<CelestialBodyBundle>)
    ensures
        moons_assigned(old(bodies)@, final(bodies)@),
        keeps_mass_and_system(old(bodies)@, final(bodies)@),
        all_orbit_star(old(bodies)@) ==> parents_heavier(final(bodies)@),
{
    let ghost s = bodies@;
    let n = bodies.len();
    let mut records: Vec<Option<(usize, u64)>> = Vec::new();
    while records.len() < n
        invariant
            records.len() <= n,
            forall|j: int| 0 <= j < records.len() ==> records@[j] is None,
        decreases n - records.len(),
    {
        records.push(None);
    }
    let mut i: usize = 0;
    while i < n
        invariant
            bodies@ == s,
            n == s.len(),
            records.len() == n,
            i <= n,
            forall|j: int|
                0 <= j < n ==> record_matches(s, #[trigger] records@[j], j, if j < i { j } else { i as int }),
        decreases n - i,
    {
        let hill = hill_radius_of(bodies[i].orbit_bundle.orbit_radius, bodies[i].mass);
        let mut j: usize = i + 1;
        while j < n
            invariant
                bodies@ == s,
                n == s.len(),
                records.len() == n,
                i < j <= n,
                hill == hill_radius(s[i as int].orbit_bundle.orbit_radius as int, s[i as int].mass as int),
                forall|k: int|
                    0 <= k < n ==> record_matches(
                        s,
                        #[trigger] records@[k],
                        k,
                        if k <= i { k } else if k < j { i + 1 } else { i as int },
                    ),
            decreases n - j,
        {
            let ri = bodies[i].orbit_bundle.orbit_radius;
            let rj = bodies[j].orbit_bundle.orbit_radius;
            let d: u64 = if rj >= ri { rj - ri } else { ri - rj };
            if bodies[j].orbit_bundle.parent.0.is_none() && (d as u128) * FIXED < hill && bodies[j].mass
                < bodies[i].mass {
                records.set(j, Some((i, d)));
            }
            j = j + 1;
        }
        i = i + 1;
    }
    let mut j: usize = 0;
    while j < n
        invariant
            n == s.len(),
            bodies@.len() == n,
            records.len() == n,
            j <= n,
            forall|k: int| 0 <= k < n ==> record_matches(s, #[trigger] records@[k], k, k),
            forall|k: int| j <= k < n ==> #[trigger] bodies@[k] == s[k],
            forall|k: int|
                0 <= k < j ==> match captor(s, k) {
                    Some(i) => moved_orbit(
                        s[k],
                        #[trigger] bodies@[k],
                        Some(i as usize),
                        bodies@[k].orbit_bundle.orbit_radius,
                    ) && valid_moon_orbit(
                        capture_roche_limit(s[i].radius as int, s[i].mass as int),
                        separation(
                            s[k].orbit_bundle.orbit_radius as int,
                            s[i].orbit_bundle.orbit_radius as int,
                        ),
                        bodies@[k].orbit_bundle.orbit_radius as int,
                    ),
                    None => bodies@[k] == s[k],
                },
        decreases n - j,
    {
        proof {
            lemma_last_captor(s, j as int, j as int);
        }
        match records[j] {
            Some((i, d)) => {
                let pm = bodies[i].mass;
                let pr = bodies[i].radius;
                let r = generate_moon_orbit(pm, pr, d);
                bodies[j].orbit_bundle.parent = Parent(Some(i));
                bodies[j].orbit_bundle.orbit_radius = r;
            },
            None => {},
        }
        j = j + 1;
    }
    proof {
        if all_orbit_star(s) {
            assert forall|j: int| 0 <= j < n implies match (#[trigger] bodies@[j].orbit_bundle.parent).0 {
                Some(p) => p < j && bodies@[p as int].mass > bodies@[j].mass,
                None => true,
            } by {
                lemma_last_captor(s, j, j);
                assert(s[j].orbit_bundle.parent.0 is None);
            }
        }
    }
}

/// Body `k` of `s` lies inside its parent's Roche limit scaled by `factor`
/// thousandths, and so is torn into a ring.
pub open spec fn inside_roche_limit(s: Seq<CelestialBodyBundle>, k: int, factor: u32) -> bool {
    match s[k].orbit_bundle.parent.0 {
        Some(p) => p < s.len() && match ring_threshold(s[p as int], s[k], factor) {
            Some(t) => s[k].orbit_bundle.orbit_radius * 1000 < t,
            None => false,
        },
        None => false,
    }
}

/// `b` is `a` with its type changed to `Ring`; all else is kept.
pub open spec fn relabelled_ring(a: CelestialBodyBundle, b: CelestialBodyBundle) -> bool {
    &&& b.id == a.id
    &&& b.system_id == a.system_id
    &&& b.mass == a.mass
    &&& b.radius == a.radius
    &&& b.orbit_bundle == a.orbit_bundle
    &&& b.body_type == BodyType(BodyTypes::Ring)
}

/// The outcome of Roche-limit resolution on `s`: exactly the bodies inside
/// their parent's scaled Roche limit are relabelled as rings.
pub open spec fn roche_resolved(s: Seq<CelestialBodyBundle>, t: Seq<CelestialBodyBundle>, factor: u32) -> bool {
    &&& t.len() == s.len()
    &&& forall|k: int|
        0 <= k < s.len() ==> if inside_roche_limit(s, k, factor) {
            relabelled_ring(s[k], #[trigger] t[k])
        } else {
            t[k] == s[k]
        }
}

/// Roche-limit resolution: every body with a parent whose orbit radius is
/// strictly below the density-based Roche limit times `factor` thousandths
/// becomes a `Ring`. Nothing else changes, and no body is removed.
pub fn resolve_roche_limits(bodies: &mut Vec<CelestialBodyBundle>, factor: u32)
    ensures
        roche_resolved(old(bodies)@, final(bodies)@, factor),
        keeps_mass_and_system(old(bodies)@, final(bodies)@),
        forall|k: int|
            0 <= k < old(bodies)@.len() ==> (#[trigger] final(bodies)@[k]).orbit_bundle
                == old(bodies)@[k].orbit_bundle,
{
    let ghost s = bodies@;
    let n = bodies.len();
    let mut k: usize = 0;
    while k < n
        invariant
            n == s.len(),
            bodies@.len() == n,
            k <= n,
            forall|m: int| k <= m < n ==> #[trigger] bodies@[m] == s[m],
            forall|m: int|
                0 <= m < k ==> if inside_roche_limit(s, m, factor) {
                    relabelled_ring(s[m], #[trigger] bodies@[m])
                } else {
                    bodies@[m] == s[m]
                },
        decreases n - k,
    {
        match bodies[k].orbit_bundle.parent.0 {
            Some(p) => {
                if p < n {
                    let t = roche_threshold(&bodies[p], &bodies[k], factor);
                    match t {
                        Some(t) => {
                            if (bodies[k].orbit_bundle.orbit_radius as u128) * 1000 < t {
                                bodies[k].body_type = BodyType(BodyTypes::Ring);
                            }
                        },
                        None => {},
                    }
                }
            },
            None => {},
        }
        k = k + 1;
    }
}

/// What a caller samples for one body: its mass (mass units) and radius (km).
#[derive(Clone, Copy, Debug, PartialEq, Eq, Structural)]
pub struct BodySample {
    pub mass: u64,
    pub radius: u64,
}

/// The classification a freshly sampled body gets from its mass.
pub open spec fn initial_body_type(mass: int) -> BodyTypes {
    if mass > GAS_GIANT_MASS {
        BodyTypes::GasGiant
    } else {
        BodyTypes::Planet
    }
}

/// `b` is a fresh body of system `star` made from `sample`: on an orbit around
/// the star in [0.1 AU, 1500 AU), at a position in [0, 2 pi), without parent.
pub open spec fn fresh_body(b: CelestialBodyBundle, sample: BodySample, star: Seq<char>) -> bool {
    &&& b.system_id.0.0@ == star
    &&& b.mass == sample.mass
    &&& b.radius == sample.radius
    &&& b.body_type == BodyType(initial_body_type(sample.mass as int))
    &&& MIN_ORBIT_RADIUS <= b.orbit_bundle.orbit_radius < MAX_ORBIT_RADIUS
    &&& b.orbit_bundle.orbit_position <= MAX_ORBIT_POSITION
    &&& b.orbit_bundle.orbit_period == 0
    &&& b.orbit_bundle.parent == Parent(None)
}

/// A fresh body of system `star_id` from `sample`, on a random orbit around the
/// star: radius in [0.1 AU, 1500 AU), position in [0, 2 pi), no parent.
pub fn generate_celestial_body(sample: BodySample, star_id: &ID) -> (b: CelestialBodyBundle)
    ensures
        b.id.0@.len() == 36,
        fresh_body(b, sample, star_id.0@),
{
    let body_type = if sample.mass > GAS_GIANT_MASS {
        BodyTypes::GasGiant
    } else {
        BodyTypes::Planet
    };
    CelestialBodyBundle {
        id: ID::fresh(),
        system_id: SystemId(star_id.duplicate()),
        mass: sample.mass,
        radius: sample.radius,
        body_type: BodyType(body_type),
        orbit_bundle: OrbitBundle {
            orbit_radius: random_u64_in(MIN_ORBIT_RADIUS, MAX_ORBIT_RADIUS - 1),
            orbit_period: 0,
            orbit_position: random_u64_in(0, MAX_ORBIT_POSITION),
            parent: Parent(None),
        },
    }
}

/// The parameters of planetary generation that the generator itself reads.
pub struct SystemGenConfig {
    pub min_bodies: u32,
    pub max_bodies: u32,
    /// The Roche-limit scale, in thousandths.
    pub roche_limit_factor: u32,
}

impl Default for SystemGenConfig {
    fn default() -> (r: SystemGenConfig)
        ensures
            r.min_bodies == 5,
            r.max_bodies == 20,
            r.roche_limit_factor == 1200,
    {
        SystemGenConfig { min_bodies: 5, max_bodies: 20, roche_limit_factor: 1200 }
    }
}

/// A malformed generation parameter.
#[derive(PartialEq, Eq, Structural, Clone, Copy, Debug)]
pub enum SystemGenError {
    /// `min_bodies` exceeds `max_bodies`: the body-count range is empty.
    EmptyBodyRange,
}

/// Draws a body count uniformly in `[min_bodies, max_bodies]`.
pub fn draw_body_count(config: &SystemGenConfig) -> (r: Result<u32, SystemGenError>)
    ensures
        config.min_bodies <= config.max_bodies <==> r is Ok,
        match r {
            Ok(n) => config.min_bodies <= n <= config.max_bodies,
            Err(e) => e == SystemGenError::EmptyBodyRange,
        },
{
    if config.min_bodies > config.max_bodies {
        return Err(SystemGenError::EmptyBodyRange);
    }
    Ok(crate::random::random_u32_in(config.min_bodies, config.max_bodies))
}

/// The stages of planetary generation: `fresh` holds one fresh body per
/// sample, `sorted` is `fresh` reordered by descending mass, `assigned` is
/// `sorted` after moon capture, and `result` is `assigned` after Roche-limit
/// resolution with `factor`.
pub open spec fn system_pipeline(
    samples: Seq<BodySample>,
    star: Seq<char>,
    factor: u32,
    fresh: Seq<CelestialBodyBundle>,
    sorted: Seq<CelestialBodyBundle>,
    assigned: Seq<CelestialBodyBundle>,
    result: Seq<CelestialBodyBundle>,
) -> bool {
    &&& fresh.len() == samples.len()
    &&& forall|k: int| 0 <= k < fresh.len() ==> fresh_body(#[trigger] fresh[k], samples[k], star)
    &&& sorted.to_multiset() == fresh.to_multiset()
    &&& sorted_by_mass_desc(sorted)
    &&& moons_assigned(sorted, assigned)
    &&& roche_resolved(assigned, result, factor)
}

/// The planetary system of star `star_id`, one body per sample: bodies are
/// sampled onto random orbits, sorted by descending mass, captured as moons,
/// and torn into rings inside the Roche limit.
pub fn generate_system(star_id: &ID, config: &SystemGenConfig, samples: &Vec<BodySample>) -> (r: Vec<
    CelestialBodyBundle,
>)
    ensures
        r@.len() == samples@.len(),
        sorted_by_mass_desc(r@),
        parents_heavier(r@),
        forall|k: int| 0 <= k < r@.len() ==> (#[trigger] r@[k]).system_id.0.0@ == star_id.0@,
        exists|fresh: Seq<CelestialBodyBundle>, sorted: Seq<CelestialBodyBundle>, assigned: Seq<CelestialBodyBundle>|
            #[trigger] system_pipeline(
                samples@,
                star_id.0@,
                config.roche_limit_factor,
                fresh,
                sorted,
                assigned,
                r@,
            ),
{
    let mut bodies: Vec<CelestialBodyBundle> = Vec::new();
    let mut k: usize = 0;
    while k < samples.len()
        invariant
            k <= samples@.len(),
            bodies@.len() == k,
            all_orbit_star(bodies@),
            forall|m: int| 0 <= m < k ==> (#[trigger] bodies@[m]).system_id.0.0@ == star_id.0@,
            forall|m: int| 0 <= m < k ==> fresh_body(#[trigger] bodies@[m], samples@[m], star_id.0@),
        decreases samples@.len() - k,
    {
        let b = generate_celestial_body(samples[k], star_id);
        bodies.push(b);
        k = k + 1;
    }
    let ghost unsorted = bodies@;
    let mut bodies = sort_by_mass_desc(bodies);
    proof {
        lemma_multiset_keeps(unsorted, bodies@, star_id.0@);
    }
    let ghost sorted = bodies@;
    assign_moons(&mut bodies);
    let ghost assigned = bodies@;
    resolve_roche_limits(&mut bodies, config.roche_limit_factor);
    proof {
        lemma_stages_keep(sorted, assigned, bodies@, star_id.0@);
        assert(system_pipeline(
            samples@,
            star_id.0@,
            config.roche_limit_factor,
            unsorted,
            sorted,
            assigned,
            bodies@,
        ));
    }
    bodies
}

/// Moon capture and ring relabelling keep the mass order, the owning system,
/// and the parent invariant that capture establishes.
proof fn lemma_stages_keep(
    sorted: Seq<CelestialBodyBundle>,
    assigned: Seq<CelestialBodyBundle>,
    resolved: Seq<CelestialBodyBundle>,
    sys: Seq<char>,
)
    requires
        sorted_by_mass_desc(sorted),
        forall|m: int| 0 <= m < sorted.len() ==> (#[trigger] sorted[m]).system_id.0.0@ == sys,
        keeps_mass_and_system(sorted, assigned),
        parents_heavier(assigned),
        keeps_mass_and_system(assigned, resolved),
        forall|k: int|
            0 <= k < assigned.len() ==> (#[trigger] resolved[k]).orbit_bundle
                == assigned[k].orbit_bundle,
    ensures
        sorted_by_mass_desc(resolved),
        parents_heavier(resolved),
        forall|k: int| 0 <= k < resolved.len() ==> (#[trigger] resolved[k]).system_id.0.0@ == sys,
{
    assert forall|i: int, j: int| 0 <= i < j < resolved.len() implies resolved[i].mass
        >= resolved[j].mass by {
        assert(assigned[i].mass == sorted[i].mass);
        assert(assigned[j].mass == sorted[j].mass);
        assert(resolved[i].mass == assigned[i].mass);
        assert(resolved[j].mass == assigned[j].mass);
    }
    assert forall|j: int| 0 <= j < resolved.len() implies match (#[trigger] resolved[j].orbit_bundle.parent).0 {
        Some(p) => p < j && resolved[p as int].mass > resolved[j].mass,
        None => true,
    } by {
        assert(assigned[j].orbit_bundle == resolved[j].orbit_bundle);
        assert(assigned[j].mass == resolved[j].mass);
        if let Some(p) = assigned[j].orbit_bundle.parent.0 {
            assert(assigned[p as int].mass == resolved[p as int].mass);
        }
    }
    assert forall|k: int| 0 <= k < resolved.len() implies (#[trigger] resolved[k]).system_id.0.0@
        == sys by {
        assert(assigned[k].system_id == resolved[k].system_id);
        assert(assigned[k].system_id == sorted[k].system_id);
    }
}

/// A permutation keeps "no parent" and the owning system of every body.
proof fn lemma_multiset_keeps(a: Seq<CelestialBodyBundle>, b: Seq<CelestialBodyBundle>, sys: Seq<char>)
    requires
        a.to_multiset() == b.to_multiset(),
        all_orbit_star(a),
        forall|m: int| 0 <= m < a.len() ==> (#[trigger] a[m]).system_id.0.0@ == sys,
    ensures
        all_orbit_star(b),
        forall|m: int| 0 <= m < b.len() ==> (#[trigger] b[m]).system_id.0.0@ == sys,
{
    assert forall|m: int| 0 <= m < b.len() implies (#[trigger] b[m]).orbit_bundle.parent.0 is None
        && b[m].system_id.0.0@ == sys by {
        assert(b.contains(b[m]));
        assert(b.to_multiset().count(b[m]) > 0);
        assert(a.contains(b[m]));
    }
}

/// A system of one body has nothing to capture it: that body orbits the star.
pub proof fn lemma_single_body_orbits_star(s: Seq<CelestialBodyBundle>)
    requires
        s.len() == 1,
        parents_heavier(s),
    ensures
        s[0].orbit_bundle.parent.0 is None,
{
    // Instantiates the parent invariant at the only body: a parent would need an index below 0.
    assert(s[0].orbit_bundle.parent == s[0].orbit_bundle.parent);
}

/// With a Roche-limit factor of zero no body is inside the scaled limit, so
/// Roche-limit resolution relabels nothing.
pub proof fn lemma_zero_factor_never_rings(s: Seq<CelestialBodyBundle>, t: Seq<CelestialBodyBundle>)
    requires
        roche_resolved(s, t, 0),
    ensures
        t == s,
        forall|k: int| 0 <= k < s.len() ==> !inside_roche_limit(s, k, 0),
{
    assert forall|k: int| 0 <= k < s.len() implies !inside_roche_limit(s, k, 0) by {
        if let Some(p) = s[k].orbit_bundle.parent.0 {
            if p < s.len() {
                if let Some(l) = tidal_limit(s[p as int], s[k]) {
                    assert(l * 0 == 0);
                }
            }
        }
    }
    assert forall|k: int| 0 <= k < s.len() implies t[k] == s[k] by {
        assert(!inside_roche_limit(s, k, 0));
    }
    assert(t =~= s);
}

/// The ring test is strict: a body exactly at the scaled Roche limit stays
/// what it is.
pub proof fn lemma_roche_boundary_is_outside(s: Seq<CelestialBodyBundle>, k: int, factor: u32)
    requires
        0 <= k < s.len(),
        s[k].orbit_bundle.parent.0 matches Some(p) && p < s.len() && ring_threshold(
            s[p as int],
            s[k],
            factor,
        ) == Some(s[k].orbit_bundle.orbit_radius * 1000),
    ensures
        !inside_roche_limit(s, k, factor),
{
}

/// Two bodies on the same orbit: the lighter one, orbiting the star, is
/// captured by the heavier one, since a separation of zero lies within any
/// positive Hill radius.
pub proof fn lemma_same_orbit_captures(parent: CelestialBodyBundle, child: CelestialBodyBundle)
    requires
        child.orbit_bundle.parent.0 is None,
        child.orbit_bundle.orbit_radius == parent.orbit_bundle.orbit_radius,
        parent.orbit_bundle.orbit_radius > 0,
        child.mass < parent.mass,
    ensures
        captures(parent, child),
{
    let q = parent.mass * FIXED_CUBED / (3 * SOLAR_MASS) as int;
    assert(parent.mass * FIXED_CUBED >= 3 * SOLAR_MASS);
    lemma_div_is_ordered(3 * SOLAR_MASS as int, parent.mass * FIXED_CUBED, 3 * SOLAR_MASS as int);
    assert(q >= 1);
    lemma_cbrt_positive(q);
    let o = parent.orbit_bundle.orbit_radius as int;
    let c = cbrt(q);
    assert(o * c > 0) by (nonlinear_arith)
        requires
            o > 0,
            c >= 1,
    ;
}
} // verus!
