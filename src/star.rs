//! Stars: spectral type and luminosity class drawn from probability tables,
//! luminosity drawn from the range their pair selects, and a surface
//! temperature from the subclass.
//!
//! Units: luminosity in 10^-8 solar luminosities, temperature in millikelvin.
use crate::common::{Name, ID};
use crate::random::{random_u32_in, random_u64_in};
use vstd::prelude::*;

verus! {

/// Spectral type, hottest first.
#[derive(PartialEq, Eq, Structural, Clone, Copy, Debug)]
pub enum StarType {
    O,
    B,
    A,
    F,
    G,
    K,
    M,
}

/// Luminosity class, from hypergiant (`O`) to dwarf (`V`).
#[derive(PartialEq, Eq, Structural, Clone, Copy, Debug)]
pub enum StarClass {
    O,
    I,
    II,
    III,
    IV,
    V,
}

#[derive(PartialEq, Eq, Structural, Clone, Copy, Debug)]
pub struct CStarType(pub StarType);

#[derive(PartialEq, Eq, Structural, Clone, Copy, Debug)]
pub struct CStarClass(pub StarClass);

/// The star generator.
pub struct Star;

/// A generated star. Mass and radius are functions of `luminosity` and
/// `temperature` and are not stored.
pub struct StarRecord {
    pub id: ID,
    pub name: Name,
    pub star_type: CStarType,
    pub star_class: CStarClass,
    /// In 10^-8 solar luminosities.
    pub luminosity: u64,
    /// The temperature subclass, 0 (hottest) to 9.
    pub subclass: u32,
    /// Surface temperature in millikelvin.
    pub temperature: u64,
}

/// One solar luminosity in luminosity units.
pub const SOLAR_LUMINOSITY: u64 = 100_000_000;

/// The spectral type a roll in `1..=1000` selects.
pub open spec fn star_type_spec(roll: int) -> StarType {
    if 1 <= roll <= 2 {
        StarType::O
    } else if 3 <= roll <= 4 {
        StarType::B
    } else if 5 <= roll <= 11 {
        StarType::A
    } else if 12 <= roll <= 13 {
        StarType::F
    } else if 14 <= roll <= 68 {
        StarType::G
    } else if 69 <= roll <= 148 {
        StarType::K
    } else {
        StarType::M
    }
}

/// The luminosity class a roll in `1..=1000` selects for spectral type `t`:
/// a hypergiant O star and a subdwarf M star are downgraded to dwarfs.
pub open spec fn star_class_spec(roll: int, t: StarType) -> StarClass {
    if 1 <= roll <= 2 {
        if t != StarType::O {
            StarClass::O
        } else {
            StarClass::V
        }
    } else if 3 <= roll <= 10 {
        StarClass::I
    } else if 11 <= roll <= 60 {
        StarClass::II
    } else if 61 <= roll <= 190 {
        StarClass::III
    } else if 191 <= roll <= 200 {
        if t != StarType::M {
            StarClass::IV
        } else {
            StarClass::V
        }
    } else {
        StarClass::V
    }
}

/// A pair of type and class that no star has.
pub open spec fn excluded_pair(t: StarType, c: StarClass) -> bool {
    (t == StarType::O && c == StarClass::O) || (t == StarType::M && c == StarClass::IV)
}

pub fn star_type_for_roll(roll: u32) -> (r: StarType)
    ensures
        r == star_type_spec(roll as int),
{
    if 1 <= roll && roll <= 2 {
        StarType::O
    } else if 3 <= roll && roll <= 4 {
        StarType::B
    } else if 5 <= roll && roll <= 11 {
        StarType::A
    } else if 12 <= roll && roll <= 13 {
        StarType::F
    } else if 14 <= roll && roll <= 68 {
        StarType::G
    } else if 69 <= roll && roll <= 148 {
        StarType::K
    } else {
        StarType::M
    }
}

pub fn star_class_for_roll(roll: u32, star_type: StarType) -> (r: StarClass)
    ensures
        r == star_class_spec(roll as int, star_type),
        !excluded_pair(star_type, r),
{
    if 1 <= roll && roll <= 2 {
        if star_type != StarType::O {
            StarClass::O
        } else {
            StarClass::V
        }
    } else if 3 <= roll && roll <= 10 {
        StarClass::I
    } else if 11 <= roll && roll <= 60 {
        StarClass::II
    } else if 61 <= roll && roll <= 190 {
        StarClass::III
    } else if 191 <= roll && roll <= 200 {
        if star_type != StarType::M {
            StarClass::IV
        } else {
            StarClass::V
        }
    } else {
        StarClass::V
    }
}

/// The luminosity range, in luminosity units, of a class and type: from
/// 0.000015 solar luminosities for the faintest dwarf M stars up to 5,000,000
/// for hypergiant O stars.
pub open spec fn luminosity_range_spec(star_class: StarClass, star_type: StarType) -> (int, int) {
    match star_class {
        StarClass::O => match star_type {
            StarType::O => (100_000_000_000_000, 500_000_000_000_000),
            StarType::B => (38_000_000_000_000, 200_000_000_000_000),
            StarType::A => (30_000_000_000_000, 60_000_000_000_000),
            StarType::F => (30_000_000_000_000, 60_000_000_000_000),
            StarType::G => (10_000_000_000_000, 50_000_000_000_000),
            StarType::K => (10_000_000_000_000, 50_000_000_000_000),
            StarType::M => (8_600_000_000_000, 50_000_000_000_000),
        },
        StarClass::I => match star_type {
            StarType::O => (1_000_000_000_000, 150_000_000_000_000),
            StarType::B => (1_000_000_000_000, 150_000_000_000_000),
            StarType::A => (100_000_000_000, 10_000_000_000_000),
            StarType::F => (100_000_000_000, 10_000_000_000_000),
            StarType::G => (2_000_000_000_000, 50_000_000_000_000),
            StarType::K => (2_000_000_000_000, 50_000_000_000_000),
            StarType::M => (2_000_000_000_000, 50_000_000_000_000),
        },
        StarClass::II => match star_type {
            StarType::O => (4_000_000_000_000, 5_200_000_000_000),
            StarType::B => (400_000_000_000, 4_000_000_000_000),
            StarType::A => (200_000_000_000, 400_000_000_000),
            StarType::F => (96_000_000_000, 200_000_000_000),
            StarType::G => (95_000_000_000, 96_000_000_000),
            StarType::K => (95_000_000_000, 100_000_000_000),
            StarType::M => (100_000_000_000, 800_000_000_000),
        },
        StarClass::III => match star_type {
            StarType::O => (5_000_000_000_000, 30_000_000_000_000),
            StarType::B => (17_000_000_000, 5_000_000_000_000),
            StarType::A => (9_700_000_000, 17_000_000_000),
            StarType::F => (9_500_000_000, 9_700_000_000),
            StarType::G => (9_500_000_000, 9_600_000_000),
            StarType::K => (9_600_000_000, 9_800_000_000),
            StarType::M => (9_800_000_000, 10_500_000_000),
        },
        StarClass::IV => match star_type {
            StarType::O => (8_000_000_000_000, 10_000_000_000_000),
            StarType::B => (10_200_000_000, 3_400_000_000_000),
            StarType::A => (1_300_000_000, 10_200_000_000),
            StarType::F => (900_000_000, 1_300_000_000),
            StarType::G => (800_000_000, 900_000_000),
            StarType::K => (800_000_000, 900_000_000),
            StarType::M => (900_000_000, 1_000_000_000),
        },
        StarClass::V => match star_type {
            StarType::O => (2_000_000_000_000, 80_000_000_000_000),
            StarType::B => (8_000_000_000, 2_000_000_000_000),
            StarType::A => (650_000_000, 8_000_000_000),
            StarType::F => (126_000_000, 650_000_000),
            StarType::G => (42_000_000, 126_000_000),
            StarType::K => (7_200_000, 42_000_000),
            StarType::M => (1_500, 7_200_000),
        },
    }
}

pub fn luminosity_range(star_class: StarClass, star_type: StarType) -> (r: (u64, u64))
    ensures
        r.0 == luminosity_range_spec(star_class, star_type).0,
        r.1 == luminosity_range_spec(star_class, star_type).1,
        0 < r.0 <= r.1,
{
    match star_class {
        StarClass::O => match star_type {
            StarType::O => (100_000_000_000_000, 500_000_000_000_000),
            StarType::B => (38_000_000_000_000, 200_000_000_000_000),
            StarType::A => (30_000_000_000_000, 60_000_000_000_000),
            StarType::F => (30_000_000_000_000, 60_000_000_000_000),
            StarType::G => (10_000_000_000_000, 50_000_000_000_000),
            StarType::K => (10_000_000_000_000, 50_000_000_000_000),
            StarType::M => (8_600_000_000_000, 50_000_000_000_000),
        },
        StarClass::I => match star_type {
            StarType::O => (1_000_000_000_000, 150_000_000_000_000),
            StarType::B => (1_000_000_000_000, 150_000_000_000_000),
            StarType::A => (100_000_000_000, 10_000_000_000_000),
            StarType::F => (100_000_000_000, 10_000_000_000_000),
            StarType::G => (2_000_000_000_000, 50_000_000_000_000),
            StarType::K => (2_000_000_000_000, 50_000_000_000_000),
            StarType::M => (2_000_000_000_000, 50_000_000_000_000),
        },
        StarClass::II => match star_type {
            StarType::O => (4_000_000_000_000, 5_200_000_000_000),
            StarType::B => (400_000_000_000, 4_000_000_000_000),
            StarType::A => (200_000_000_000, 400_000_000_000),
            StarType::F => (96_000_000_000, 200_000_000_000),
            StarType::G => (95_000_000_000, 96_000_000_000),
            StarType::K => (95_000_000_000, 100_000_000_000),
            StarType::M => (100_000_000_000, 800_000_000_000),
        },
        StarClass::III => match star_type {
            StarType::O => (5_000_000_000_000, 30_000_000_000_000),
            StarType::B => (17_000_000_000, 5_000_000_000_000),
            StarType::A => (9_700_000_000, 17_000_000_000),
            StarType::F => (9_500_000_000, 9_700_000_000),
            StarType::G => (9_500_000_000, 9_600_000_000),
            StarType::K => (9_600_000_000, 9_800_000_000),
            StarType::M => (9_800_000_000, 10_500_000_000),
        },
        StarClass::IV => match star_type {
            StarType::O => (8_000_000_000_000, 10_000_000_000_000),
            StarType::B => (10_200_000_000, 3_400_000_000_000),
            StarType::A => (1_300_000_000, 10_200_000_000),
            StarType::F => (900_000_000, 1_300_000_000),
            StarType::G => (800_000_000, 900_000_000),
            StarType::K => (800_000_000, 900_000_000),
            StarType::M => (900_000_000, 1_000_000_000),
        },
        StarClass::V => match star_type {
            StarType::O => (2_000_000_000_000, 80_000_000_000_000),
            StarType::B => (8_000_000_000, 2_000_000_000_000),
            StarType::A => (650_000_000, 8_000_000_000),
            StarType::F => (126_000_000, 650_000_000),
            StarType::G => (42_000_000, 126_000_000),
            StarType::K => (7_200_000, 42_000_000),
            StarType::M => (1_500, 7_200_000),
        },
    }
}

/// The temperature profile of a spectral type, in kelvin: (hottest, coolest,
/// step per subclass).
pub open spec fn temperature_profile_spec(star_type: StarType) -> (int, int, int) {
    match star_type {
        StarType::O => (54000, 33200, 2400),
        StarType::B => (29700, 10700, 2111),
        StarType::A => (9790, 7323, 274),
        StarType::F => (7300, 6033, 141),
        StarType::G => (5940, 5335, 67),
        StarType::K => (5150, 3880, 141),
        StarType::M => (3840, 2376, 165),
    }
}

pub fn temperature_profile(star_type: StarType) -> (r: (u64, u64, u64))
    ensures
        r.0 == temperature_profile_spec(star_type).0,
        r.1 == temperature_profile_spec(star_type).1,
        r.2 == temperature_profile_spec(star_type).2,
        r.2 / 2 < r.1,
{
    match star_type {
        StarType::O => (54000, 33200, 2400),
        StarType::B => (29700, 10700, 2111),
        StarType::A => (9790, 7323, 274),
        StarType::F => (7300, 6033, 141),
        StarType::G => (5940, 5335, 67),
        StarType::K => (5150, 3880, 141),
        StarType::M => (3840, 2376, 165),
    }
}

/// The subclass a roll in `0..=9` gives: at least 5 for a dwarf O star, at
/// most 6 for an M star.
pub open spec fn subclass_spec(roll: int, star_class: StarClass, star_type: StarType) -> int {
    if star_type == StarType::O && star_class == StarClass::V {
        if roll < 5 {
            5
        } else {
            roll
        }
    } else if star_type == StarType::M {
        if roll > 6 {
            6
        } else {
            roll
        }
    } else {
        roll
    }
}

pub fn temperature_subclass(roll: u32, star_class: StarClass, star_type: StarType) -> (r: u32)
    requires
        roll <= 9,
    ensures
        r == subclass_spec(roll as int, star_class, star_type),
        r <= 9,
{
    if star_type == StarType::O && star_class == StarClass::V {
        if roll < 5 {
            5
        } else {
            roll
        }
    } else if star_type == StarType::M {
        if roll > 6 {
            6
        } else {
            roll
        }
    } else {
        roll
    }
}

/// The surface temperature of a subclass before jitter, in millikelvin:
/// `coolest + step * (9 - subclass)`.
pub open spec fn base_temperature(star_type: StarType, subclass: int) -> int {
    (temperature_profile_spec(star_type).1 + temperature_profile_spec(star_type).2 * (9 - subclass))
        * 1000
}

/// How far, in millikelvin, jitter moves a temperature either way: half a
/// step, or a sixth of one for subclass 0.
pub open spec fn jitter_bound(star_type: StarType, subclass: int) -> int {
    if subclass == 0 {
        temperature_profile_spec(star_type).2 * 1000 / 6
    } else {
        temperature_profile_spec(star_type).2 * 1000 / 2
    }
}

pub fn temperature_jitter_bound(star_type: StarType, subclass: u32) -> (r: u64)
    requires
        subclass <= 9,
    ensures
        r == jitter_bound(star_type, subclass as int),
{
    let (_, _, step) = temperature_profile(star_type);
    if subclass == 0 {
        step * 1000 / 6
    } else {
        step * 1000 / 2
    }
}

/// The surface temperature of a subclass before jitter, in millikelvin.
pub fn base_temperature_of(star_type: StarType, subclass: u32) -> (r: u64)
    requires
        subclass <= 9,
    ensures
        r == base_temperature(star_type, subclass as int),
{
    let (_, coolest, step) = temperature_profile(star_type);
    (coolest + step * (9 - subclass as u64)) * 1000
}

/// The surface temperature of `subclass` moved by `offset - jitter_bound`,
/// for an `offset` drawn in `[0, 2 * jitter_bound]`. Always positive.
pub fn surface_temperature(star_type: StarType, subclass: u32, offset: u64) -> (r: u64)
    requires
        subclass <= 9,
        offset <= 2 * jitter_bound(star_type, subclass as int),
    ensures
        r == base_temperature(star_type, subclass as int) - jitter_bound(star_type, subclass as int)
            + offset,
        r > 0,
{
    let w = temperature_jitter_bound(star_type, subclass);
    let base = base_temperature_of(star_type, subclass);
    base - w + offset
}

/// What holds of every generated star: the type and class are a permitted
/// pair, the luminosity lies in their range, the subclass obeys its clamps,
/// and the temperature lies within the jitter bound of its subclass's base.
pub open spec fn valid_star(s: StarRecord) -> bool {
    let t = s.star_type.0;
    let c = s.star_class.0;
    &&& !excluded_pair(t, c)
    &&& luminosity_range_spec(c, t).0 <= s.luminosity <= luminosity_range_spec(c, t).1
    &&& s.luminosity > 0
    &&& s.subclass <= 9
    &&& (t == StarType::O && c == StarClass::V ==> s.subclass >= 5)
    &&& (t == StarType::M ==> s.subclass <= 6)
    &&& base_temperature(t, s.subclass as int) - jitter_bound(t, s.subclass as int) <= s.temperature
    &&& s.temperature <= base_temperature(t, s.subclass as int) + jitter_bound(t, s.subclass as int)
    &&& s.temperature > 0
}

impl Star {
    /// Draws a star: type, class, luminosity, subclass and temperature, each
    /// from its own independent draw, in that order.
    pub fn generate() -> (s: StarRecord)
        ensures
            valid_star(s),
            s.id.0@.len() == 36,
            s.name.0@ == "Star"@,
    {
        let star_type = star_type_for_roll(random_u32_in(1, 1000));
        let star_class = star_class_for_roll(random_u32_in(1, 1000), star_type);
        let (lo, hi) = luminosity_range(star_class, star_type);
        let luminosity = random_u64_in(lo, hi);
        let subclass = temperature_subclass(random_u32_in(0, 9), star_class, star_type);
        let w = temperature_jitter_bound(star_type, subclass);
        let temperature = surface_temperature(star_type, subclass, random_u64_in(0, 2 * w));
        StarRecord {
            id: ID::fresh(),
            name: Name("Star".to_owned()),
            star_type: CStarType(star_type),
            star_class: CStarClass(star_class),
            luminosity,
            subclass,
            temperature,
        }
    }
}

impl StarType {
    pub open spec fn label_spec(self) -> Seq<char> {
        match self {
            StarType::O => "O type (blue)"@,
            StarType::B => "B type (blue)"@,
            StarType::A => "A type (white blue)"@,
            StarType::F => "F type (white yellow)"@,
            StarType::G => "G type (yellow orange)"@,
            StarType::K => "K type (orange red)"@,
            StarType::M => "M type (red)"@,
        }
    }

    /// The human-readable label.
    pub fn label(&self) -> (r: String)
        ensures
            r@ == self.label_spec(),
    {
        let s: &str = match self {
            StarType::O => "O type (blue)",
            StarType::B => "B type (blue)",
            StarType::A => "A type (white blue)",
            StarType::F => "F type (white yellow)",
            StarType::G => "G type (yellow orange)",
            StarType::K => "K type (orange red)",
            StarType::M => "M type (red)",
        };
        s.to_owned()
    }
}

impl StarClass {
    pub open spec fn label_spec(self) -> Seq<char> {
        match self {
            StarClass::O => "O class (hypergiant)"@,
            StarClass::I => "I class (supergiant)"@,
            StarClass::II => "II class (bright giant)"@,
            StarClass::III => "III class (giant)"@,
            StarClass::IV => "IV class (subdwarf)"@,
            StarClass::V => "V class (dwarf)"@,
        }
    }

    /// The human-readable label.
    pub fn label(&self) -> (r: String)
        ensures
            r@ == self.label_spec(),
    {
        let s: &str = match self {
            StarClass::O => "O class (hypergiant)",
            StarClass::I => "I class (supergiant)",
            StarClass::II => "II class (bright giant)",
            StarClass::III => "III class (giant)",
            StarClass::IV => "IV class (subdwarf)",
            StarClass::V => "V class (dwarf)",
        };
        s.to_owned()
    }
}

/// The piece of the mass-luminosity power law that applies to a star:
/// `Faint` is `L^(1/2.3)`, `Dwarf` `L^(1/4)`, `Main` `(L/1.5)^(1/3.5)`,
/// `Giant` `L/3200`, and `Supergiant` `(L/3200)^(1/1.25)`, with `L` in solar
/// luminosities and the mass in solar masses.
#[derive(PartialEq, Eq, Structural, Clone, Copy, Debug)]
pub enum MassLaw {
    Faint,
    Dwarf,
    Main,
    Giant,
    Supergiant,
}

/// The piece for a luminosity in luminosity units. The breakpoints are
/// 0.03418801, 16.97056275, 64,000 and 160,000 solar luminosities; the last
/// belongs to the piece below it.
pub open spec fn mass_law_spec(luminosity: int) -> MassLaw {
    if luminosity < 3_418_801 {
        MassLaw::Faint
    } else if luminosity < 1_697_056_275 {
        MassLaw::Dwarf
    } else if luminosity < 6_400_000_000_000 {
        MassLaw::Main
    } else if luminosity <= 16_000_000_000_000 {
        MassLaw::Giant
    } else {
        MassLaw::Supergiant
    }
}

pub fn mass_law(luminosity: u64) -> (r: MassLaw)
    ensures
        r == mass_law_spec(luminosity as int),
{
    if luminosity < 3_418_801 {
        MassLaw::Faint
    } else if luminosity < 1_697_056_275 {
        MassLaw::Dwarf
    } else if luminosity < 6_400_000_000_000 {
        MassLaw::Main
    } else if luminosity <= 16_000_000_000_000 {
        MassLaw::Giant
    } else {
        MassLaw::Supergiant
    }
}

impl StarRecord {
    /// The same star under another name.
    pub fn with_name(self, name: &str) -> (r: StarRecord)
        ensures
            r.name.0@ == name@,
            r.id == self.id,
            r.star_type == self.star_type,
            r.star_class == self.star_class,
            r.luminosity == self.luminosity,
            r.subclass == self.subclass,
            r.temperature == self.temperature,
    {
        StarRecord { name: Name(name.to_owned()), ..self }
    }
}

} // verus!
