//! Units of measure (SEMI E5 section 12).
use vstd::prelude::*;

verus! {

/// A unit: an identifier and an optional exponent.
pub struct Unit {
    pub identifier: Identifier,
    pub exponent: Option<i64>,
}

/// The identifier of a unit, with its prefix or suffix where it takes one.
pub enum Identifier {
    /// No unit: the null string.
    Unitless,
    Percent,
    PartsPerMillion,
    Bel(Option<Prefix>),
    Neper(Option<Prefix>),
    PH,
    Second(Option<Prefix>),
    Minute,
    Hour,
    DayMeanSolar,
    Month,
    Year,
    Meter(Option<Prefix>),
    Angstrom(Option<Prefix>),
    Micron,
    MilliMicron,
    NauticalMile,
    Inch,
    Foot,
    Mil,
    Mile,
    Gram(Option<Prefix>),
    AtomicMass,
    Slug,
    Pound,
    Ampere(Option<Prefix>),
    Kelvin,
    DegreeCelsius,
    DegreeFarenheit,
    Mole,
    Candela(Option<Prefix>),
    Radian(Option<Prefix>),
    Cycle(Option<Prefix>),
    Revolution,
    DegreePlanar,
    MinutePlanar,
    SecondPlanar,
    Steradian(Option<Prefix>),
    Hertz(Option<Prefix>),
    Becquerel(Option<Prefix>),
    Curie,
    Knot,
    Gal(Option<Prefix>),
    Barn(Option<Prefix>),
    Darcy,
    Stokes(Option<Prefix>),
    Liter(Option<Prefix>),
    Barrel,
    Gallon,
    GallonUK,
    PintUK,
    PintUSDry,
    PintUSLiquid,
    QuartUK,
    QuartUSDry,
    QuartUSLiquid,
    StandardCubicCentimeterPerMinute,
    StandardLiterPerMinute,
    Newton(Option<Prefix>),
    Dyne(Option<Prefix>),
    GramForce(Option<Prefix>),
    MetricTon,
    PoundForce,
    TonShort,
    KiloPoundForce,
    Poundal,
    OunceAvoirdupois,
    Grain,
    Joule(Option<Prefix>),
    WattHour(Option<Prefix>),
    BritishThermal,
    Therm,
    CalorieInternational(Option<Prefix>),
    Calorie(Option<Prefix>),
    ElectronVolt(Option<Prefix>),
    Erg(Option<Prefix>),
    Watt(Option<Prefix>),
    Horsepower,
    Var(Option<Prefix>),
    Poise(Option<Prefix>),
    Pascal(Option<Prefix>),
    Bar(Option<Prefix>),
    AtmosphereStandard,
    AtmosphereTechnical,
    InchMercury,
    InchWater,
    MicronMercury,
    MilliMeterMercury,
    Torr(Option<Prefix>),
    Coulomb(Option<Prefix>),
    Oersted(Option<Prefix>),
    Siemens(Option<Prefix>),
    Mho(Option<Prefix>),
    Farad(Option<Prefix>),
    Tesla(Option<Prefix>),
    Gauss(Option<Prefix>),
    Weber(Option<Prefix>),
    Maxwell(Option<Prefix>),
    Volt(Option<Prefix>),
    Henry(Option<Prefix>),
    Ohm(Option<Prefix>),
    AmpereTurn(Option<Prefix>),
    Gilbert(Option<Prefix>),
    Lumen(Option<Prefix>),
    Nit(Option<Prefix>),
    Stilb(Option<Prefix>),
    Lambert(Option<Prefix>),
    FootLambert,
    Lux(Option<Prefix>),
    Phot(Option<Prefix>),
    FootCandle,
    Sievert(Option<Prefix>),
    Rem(Option<Prefix>),
    Gray(Option<Prefix>),
    Rad(Option<Prefix>),
    Roentgen,
    Bit(Option<Prefix>),
    Byte(Option<Prefix>),
    Baud(Option<Prefix>),
    Ion,
    Substrate,
    Ingot,
    Wafer,
    Die,
    Package,
    Lot,
    Boat(Option<Suffix>),
    Carrier(Option<Suffix>),
    Cassette(Option<Suffix>),
    LeadFrame(Option<Suffix>),
    Magazine(Option<Suffix>),
    Plate(Option<Suffix>),
    Tube(Option<Suffix>),
    WaferFrame(Option<Suffix>),
}

/// A decimal prefix of a unit.
#[derive(Debug, Clone, Copy, PartialEq, Eq, Structural)]
pub enum Prefix {
    Exa,
    Peta,
    Tera,
    Giga,
    Mega,
    Kilo,
    Hecto,
    Deca,
    Deci,
    Centi,
    Milli,
    Micro,
    Nano,
    Pico,
    Femto,
    Atto,
}

/// The capacity suffix of a holder unit.
#[derive(Debug, Clone, Copy, PartialEq, Eq, Structural)]
pub struct Suffix(pub u64);

} // verus!
