//! Satellite constellations and the satellites in view.

use crate::random::RandomGenerator;
use crate::text::all_plain;
use vstd::prelude::*;

verus! {

/// A satellite navigation system.
#[derive(Debug, Clone, Copy, PartialEq, Eq, Structural)]
pub enum Constellation {
    GPS,
    GLONASS,
    GALILEO,
    BEIDOU,
    QZSS,
}

/// A satellite: its constellation and its number in NMEA's numbering.
#[derive(Debug, Clone, Copy)]
pub struct Satellite {
    pub constellation: Constellation,
    pub id: u16,
}

/// The name of a constellation.
pub open spec fn name_of(constellation: Constellation) -> Seq<char> {
    match constellation {
        Constellation::GPS => "GPS"@,
        Constellation::GLONASS => "GLONASS"@,
        Constellation::GALILEO => "GALILEO"@,
        Constellation::BEIDOU => "BEIDOU"@,
        Constellation::QZSS => "QZSS"@,
    }
}

/// The talker id under which a constellation reports.
pub open spec fn code_of(constellation: Constellation) -> Seq<char> {
    match constellation {
        Constellation::GPS => "GP"@,
        Constellation::GLONASS => "GL"@,
        Constellation::GALILEO => "GA"@,
        Constellation::BEIDOU => "GB"@,
        Constellation::QZSS => "GQ"@,
    }
}

/// The place of a constellation in the order of the type.
pub open spec fn index_of(constellation: Constellation) -> int {
    match constellation {
        Constellation::GPS => 0,
        Constellation::GLONASS => 1,
        Constellation::GALILEO => 2,
        Constellation::BEIDOU => 3,
        Constellation::QZSS => 4,
    }
}

/// The least satellite number of a constellation.
pub open spec fn first_id(constellation: Constellation) -> int {
    match constellation {
        Constellation::GPS => 1,
        Constellation::GLONASS => 65,
        Constellation::GALILEO => 1,
        Constellation::BEIDOU => 101,
        Constellation::QZSS => 183,
    }
}

/// The bound above the satellite numbers that are drawn for a
/// constellation.
pub open spec fn id_limit(constellation: Constellation) -> int {
    match constellation {
        Constellation::GPS => 32,
        Constellation::GLONASS => 96,
        Constellation::GALILEO => 36,
        Constellation::BEIDOU => 136,
        Constellation::QZSS => 202,
    }
}

impl Constellation {
    /// The name of the constellation.
    pub fn to_string(&self) -> (name: String)
        ensures
            name@ == name_of(*self),
    {
        match self {
            Constellation::GPS => "GPS".to_string(),
            Constellation::GLONASS => "GLONASS".to_string(),
            Constellation::GALILEO => "GALILEO".to_string(),
            Constellation::BEIDOU => "BEIDOU".to_string(),
            Constellation::QZSS => "QZSS".to_string(),
        }
    }

    /// The talker id of the constellation.
    pub fn to_code(&self) -> (code: String)
        ensures
            code@ == code_of(*self),
    {
        match self {
            Constellation::GPS => "GP".to_string(),
            Constellation::GLONASS => "GL".to_string(),
            Constellation::GALILEO => "GA".to_string(),
            Constellation::BEIDOU => "GB".to_string(),
            Constellation::QZSS => "GQ".to_string(),
        }
    }

    /// The number of constellations.
    pub fn len() -> (count: usize)
        ensures
            count == 5,
    {
        5
    }

    /// The constellation at a place in the order of the type.
    pub fn from_index(index: usize) -> (constellation: Constellation)
        requires
            index < 5,
        ensures
            index_of(constellation) == index,
    {
        if index == 0 {
            Constellation::GPS
        } else if index == 1 {
            Constellation::GLONASS
        } else if index == 2 {
            Constellation::GALILEO
        } else if index == 3 {
            Constellation::BEIDOU
        } else {
            Constellation::QZSS
        }
    }

    /// A constellation drawn at random from all of the type.
    pub fn get_random() -> (constellation: Constellation)
        ensures
            0 <= index_of(constellation) < 5,
    {
        let mut source = RandomGenerator::new();
        let limit = Constellation::len() as i32;
        let index = source.random_int(0, limit);
        Constellation::from_index(index as usize)
    }
}

impl Satellite {
    /// The satellite of `constell` with the number `id`.
    pub fn new(constell: Constellation, id: u16) -> (satellite: Satellite)
        ensures
            satellite.constellation == constell,
            satellite.id == id,
    {
        Satellite { constellation: constell, id }
    }

    /// A satellite of a constellation drawn at random, with a number drawn
    /// from that constellation's range.
    pub fn new_random() -> (satellite: Satellite)
        ensures
            0 <= index_of(satellite.constellation) < 5,
            first_id(satellite.constellation) <= satellite.id < id_limit(satellite.constellation),
    {
        let constell = Constellation::get_random();
        let mut source = RandomGenerator::new();
        let id = match constell {
            Constellation::GPS => source.random_int(1, 32),
            Constellation::GLONASS => source.random_int(65, 96),
            Constellation::GALILEO => source.random_int(1, 36),
            Constellation::BEIDOU => source.random_int(101, 136),
            Constellation::QZSS => source.random_int(183, 202),
        };
        Satellite { constellation: constell, id: id as u16 }
    }
}

/// A talker id can stand inside a sentence.
pub proof fn lemma_code_is_plain(constellation: Constellation)
    ensures
        all_plain(code_of(constellation)),
        code_of(constellation).len() == 2,
{
    reveal_strlit("GP");
    reveal_strlit("GL");
    reveal_strlit("GA");
    reveal_strlit("GB");
    reveal_strlit("GQ");
}

} // verus!
