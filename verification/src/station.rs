//! ITS station categories and their numeric wire codes
//! (ETSI EN 302 636-4-1, clause 6).

use vstd::prelude::*;

verus! {

/// Category of an ITS station, carried as a 5-bit code inside the
/// GeoNetworking address. The enumeration is closed: every value a decoder
/// can produce is one of these thirteen variants.
#[derive(Clone, Copy, Debug, PartialEq, Eq)]
pub enum StationType {
    Unknown,
    Pedestrian,
    Cyclist,
    Moped,
    Motorcycle,
    PassengerCar,
    Bus,
    LightTruck,
    HeavyTruck,
    Trailer,
    SpecialVehicle,
    Tram,
    RoadSideUnit,
}

/// Numeric wire code of a station type: 0 through 11 for the ordinary
/// categories and 15 for a road-side unit.
pub open spec fn station_code(t: StationType) -> u8 {
    match t {
        StationType::Unknown => 0,
        StationType::Pedestrian => 1,
        StationType::Cyclist => 2,
        StationType::Moped => 3,
        StationType::Motorcycle => 4,
        StationType::PassengerCar => 5,
        StationType::Bus => 6,
        StationType::LightTruck => 7,
        StationType::HeavyTruck => 8,
        StationType::Trailer => 9,
        StationType::SpecialVehicle => 10,
        StationType::Tram => 11,
        StationType::RoadSideUnit => 15,
    }
}

/// Station type a numeric code decodes to. Codes outside the defined set
/// (12 through 14, and everything above 15) collapse to `Unknown`: decoding
/// never fails, it degrades gracefully.
pub open spec fn station_from_code(c: u8) -> StationType {
    if c == 0 {
        StationType::Unknown
    } else if c == 1 {
        StationType::Pedestrian
    } else if c == 2 {
        StationType::Cyclist
    } else if c == 3 {
        StationType::Moped
    } else if c == 4 {
        StationType::Motorcycle
    } else if c == 5 {
        StationType::PassengerCar
    } else if c == 6 {
        StationType::Bus
    } else if c == 7 {
        StationType::LightTruck
    } else if c == 8 {
        StationType::HeavyTruck
    } else if c == 9 {
        StationType::Trailer
    } else if c == 10 {
        StationType::SpecialVehicle
    } else if c == 11 {
        StationType::Tram
    } else if c == 15 {
        StationType::RoadSideUnit
    } else {
        StationType::Unknown
    }
}

/// Symbolic name of a station type, as a character sequence.
pub open spec fn station_name(t: StationType) -> Seq<char> {
    match t {
        StationType::Unknown => "Unknown"@,
        StationType::Pedestrian => "Pedestrian"@,
        StationType::Cyclist => "Cyclist"@,
        StationType::Moped => "Moped"@,
        StationType::Motorcycle => "Motorcycle"@,
        StationType::PassengerCar => "PassengerCar"@,
        StationType::Bus => "Bus"@,
        StationType::LightTruck => "LightTruck"@,
        StationType::HeavyTruck => "HeavyTruck"@,
        StationType::Trailer => "Trailer"@,
        StationType::SpecialVehicle => "SpecialVehicle"@,
        StationType::Tram => "Tram"@,
        StationType::RoadSideUnit => "RoadSideUnit"@,
    }
}

impl StationType {
    /// Total decode of a numeric code; any code with no defined variant
    /// gives `Unknown`, never an error.
    pub fn from_code(value: u8) -> (r: StationType)
        ensures
            r == station_from_code(value),
    {
        match value {
            0 => StationType::Unknown,
            1 => StationType::Pedestrian,
            2 => StationType::Cyclist,
            3 => StationType::Moped,
            4 => StationType::Motorcycle,
            5 => StationType::PassengerCar,
            6 => StationType::Bus,
            7 => StationType::LightTruck,
            8 => StationType::HeavyTruck,
            9 => StationType::Trailer,
            10 => StationType::SpecialVehicle,
            11 => StationType::Tram,
            15 => StationType::RoadSideUnit,
            _ => StationType::Unknown,
        }
    }

    /// Numeric wire code of this station type.
    pub fn to_code(&self) -> (r: u8)
        ensures
            r == station_code(*self),
    {
        match self {
            StationType::Unknown => 0,
            StationType::Pedestrian => 1,
            StationType::Cyclist => 2,
            StationType::Moped => 3,
            StationType::Motorcycle => 4,
            StationType::PassengerCar => 5,
            StationType::Bus => 6,
            StationType::LightTruck => 7,
            StationType::HeavyTruck => 8,
            StationType::Trailer => 9,
            StationType::SpecialVehicle => 10,
            StationType::Tram => 11,
            StationType::RoadSideUnit => 15,
        }
    }

    /// Symbolic name of the variant, e.g. `"PassengerCar"`.
    pub fn name(&self) -> (r: String)
        ensures
            r@ == station_name(*self),
    {
        match self {
            StationType::Unknown => String::from_str("Unknown"),
            StationType::Pedestrian => String::from_str("Pedestrian"),
            StationType::Cyclist => String::from_str("Cyclist"),
            StationType::Moped => String::from_str("Moped"),
            StationType::Motorcycle => String::from_str("Motorcycle"),
            StationType::PassengerCar => String::from_str("PassengerCar"),
            StationType::Bus => String::from_str("Bus"),
            StationType::LightTruck => String::from_str("LightTruck"),
            StationType::HeavyTruck => String::from_str("HeavyTruck"),
            StationType::Trailer => String::from_str("Trailer"),
            StationType::SpecialVehicle => String::from_str("SpecialVehicle"),
            StationType::Tram => String::from_str("Tram"),
            StationType::RoadSideUnit => String::from_str("RoadSideUnit"),
        }
    }
}

/// Every defined code is below 16: the station type always fits the 5-bit
/// wire field with room to spare.
pub proof fn lemma_station_code_bound(t: StationType)
    ensures
        station_code(t) < 16,
{
}

/// The code mapping round-trips: decoding the code of any variant gives
/// that variant back.
pub proof fn lemma_station_code_roundtrip(t: StationType)
    ensures
        station_from_code(station_code(t)) == t,
{
}

/// The code mapping is injective over the thirteen defined variants.
pub proof fn lemma_station_code_injective(t1: StationType, t2: StationType)
    requires
        station_code(t1) == station_code(t2),
    ensures
        t1 == t2,
{
    lemma_station_code_roundtrip(t1);
    lemma_station_code_roundtrip(t2);
}

/// An ITS station: a numeric identifier together with its category.
#[derive(Clone, Copy, Debug, PartialEq, Eq)]
pub struct ItsStation {
    pub id: u32,
    pub stype: StationType,
}

} // verus!
