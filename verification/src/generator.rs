//! The sentence generator: it draws a position, the satellites in view and
//! the values of the fix, reads the clock, and writes one report.

use crate::clock::{
    is_date_text, is_time_text, lemma_clock_text_is_plain, utc_date_now, utc_time_now,
};
use crate::constellation::{first_id, id_limit, index_of, Satellite};
use crate::location::{
    lemma_location_layout, lemma_shown_location_is_plain, shows, LocationData,
};
use crate::random::RandomGenerator;
use crate::sentence::{
    checksum_text, frame, frames, lemma_frames_of_one, lemma_frames_of_two_lists,
};
use crate::sentences::{
    gga_body, gga_sentence, gll_body, gll_sentence, gsa_bodies, gsa_sentences, gsa_text,
    gsv_bodies, gsv_count, gsv_message_count, gsv_sentences, gsv_text, lemma_gga_body_is_plain,
    lemma_gll_body_is_plain, lemma_gsa_bodies_are_plain, lemma_gsa_text_is_framed,
    lemma_gsv_bodies_are_plain, lemma_gsv_text_is_framed, lemma_rmc_body_is_plain, rmc_body,
    rmc_sentence,
};
use crate::text::{all_plain, is_digit};
use vstd::prelude::*;
use vstd::string::StringExecFns;

verus! {

/// The generator of reports.
pub struct NmeaGenerator {
    rg: RandomGenerator,
}

/// Whether `loc` shows a position that the generator can draw: a latitude
/// within 90 degrees and a longitude within 180 degrees of zero.
pub open spec fn is_drawn_location(loc: LocationData) -> bool {
    exists|latitude: int, longitude: int|
        -54_000_000 <= latitude < 54_000_000 && -108_000_000 <= longitude < 108_000_000
            && #[trigger] shows(loc, latitude, longitude)
}

/// Whether a satellite is one that the generator can draw.
pub open spec fn is_drawn_satellite(satellite: Satellite) -> bool {
    &&& 0 <= index_of(satellite.constellation) < 5
    &&& first_id(satellite.constellation) <= satellite.id < id_limit(satellite.constellation)
}

/// Whether a list of satellites is one that the generator can draw: from
/// four to eleven of them.
pub open spec fn is_drawn_constellation(satellites: Seq<Satellite>) -> bool {
    &&& 4 <= satellites.len() < 12
    &&& forall|i: int| 0 <= i < satellites.len() ==> is_drawn_satellite(#[trigger] satellites[i])
}

/// Whether `text` is the GGA sentence of the position and the number of
/// satellites with the given time and drawn values.
pub open spec fn gga_with(
    text: Seq<char>,
    loc: LocationData,
    num_satellites: int,
    utc_time: Seq<char>,
    fix_quality: int,
    hdop: int,
    altitude: int,
    geoid_height: int,
) -> bool {
    &&& is_time_text(utc_time)
    &&& 0 <= fix_quality < 5
    &&& 5 <= hdop < 100
    &&& 0 <= altitude < 10_000
    &&& -1_000 <= geoid_height < 1_000
    &&& text == frame(
        gga_body(utc_time, loc, fix_quality, num_satellites, hdop, altitude, geoid_height),
    )
}

/// Whether `text` is a GGA sentence that the generator can write for the
/// position and the number of satellites.
pub open spec fn is_gga(text: Seq<char>, loc: LocationData, num_satellites: int) -> bool {
    exists|utc_time: Seq<char>, fix_quality: int, hdop: int, altitude: int, geoid_height: int|
        #[trigger] gga_with(
            text,
            loc,
            num_satellites,
            utc_time,
            fix_quality,
            hdop,
            altitude,
            geoid_height,
        )
}

/// Whether `text` is the RMC sentence of the position with the given time,
/// date and drawn values.
pub open spec fn rmc_with(
    text: Seq<char>,
    loc: LocationData,
    utc_time: Seq<char>,
    speed: int,
    course: int,
    utc_date: Seq<char>,
) -> bool {
    &&& is_time_text(utc_time)
    &&& is_date_text(utc_date)
    &&& 0 <= speed < 1_000
    &&& 0 <= course < 3_600
    &&& text == frame(rmc_body(utc_time, loc, speed, course, utc_date))
}

/// Whether `text` is an RMC sentence that the generator can write for the
/// position.
pub open spec fn is_rmc(text: Seq<char>, loc: LocationData) -> bool {
    exists|utc_time: Seq<char>, speed: int, course: int, utc_date: Seq<char>| #[trigger]
        rmc_with(text, loc, utc_time, speed, course, utc_date)
}

/// Whether `text` is the GLL sentence of the position with the given time.
pub open spec fn gll_with(text: Seq<char>, loc: LocationData, utc_time: Seq<char>) -> bool {
    &&& is_time_text(utc_time)
    &&& text == frame(gll_body(loc, utc_time))
}

/// Whether `text` is a GLL sentence that the generator can write for the
/// position.
pub open spec fn is_gll(text: Seq<char>, loc: LocationData) -> bool {
    exists|utc_time: Seq<char>| #[trigger] gll_with(text, loc, utc_time)
}

/// Whether `text` holds the GSA sentences of the satellites with the given
/// dilutions of precision.
pub open spec fn gsa_with(
    text: Seq<char>,
    satellites: Seq<Satellite>,
    pdop: int,
    hdop: int,
    vdop: int,
) -> bool {
    &&& 5 <= pdop < 100
    &&& 5 <= hdop < 100
    &&& 5 <= vdop < 100
    &&& text == gsa_text(satellites, 5, pdop, hdop, vdop)
}

/// Whether `text` holds GSA sentences that the generator can write for the
/// satellites.
pub open spec fn is_gsa(text: Seq<char>, satellites: Seq<Satellite>) -> bool {
    exists|pdop: int, hdop: int, vdop: int| #[trigger] gsa_with(text, satellites, pdop, hdop, vdop)
}

/// The GSV sentences of the satellites: as many as it takes to tell them
/// four at a time.
pub open spec fn gsv_of(satellites: Seq<Satellite>) -> Seq<char> {
    gsv_text(satellites, gsv_count(satellites.len()), gsv_count(satellites.len()))
}

/// Whether `text` is made of the given sentences for the position and the
/// satellites, in the order of a report.
pub open spec fn report_of(
    text: Seq<char>,
    loc: LocationData,
    satellites: Seq<Satellite>,
    rmc: Seq<char>,
    gga: Seq<char>,
    gll: Seq<char>,
    gsa: Seq<char>,
) -> bool {
    &&& is_drawn_location(loc)
    &&& is_drawn_constellation(satellites)
    &&& is_rmc(rmc, loc)
    &&& is_gga(gga, loc, satellites.len() as int)
    &&& is_gll(gll, loc)
    &&& is_gsa(gsa, satellites)
    &&& text == rmc + gga + gll + gsa + gsv_of(satellites)
}

/// Whether `text` is a report that the generator can write: an RMC, a GGA
/// and a GLL sentence of one position, then the GSA and the GSV sentences of
/// one list of satellites.
pub open spec fn is_report(text: Seq<char>) -> bool {
    exists|
        loc: LocationData,
        satellites: Seq<Satellite>,
        rmc: Seq<char>,
        gga: Seq<char>,
        gll: Seq<char>,
        gsa: Seq<char>,
    | #[trigger]
        report_of(text, loc, satellites, rmc, gga, gll, gsa)
}

impl NmeaGenerator {
    /// A generator on the calling thread's random source.
    pub fn new() -> (generator: NmeaGenerator) {
        NmeaGenerator { rg: RandomGenerator::new() }
    }

    /// A position drawn at random.
    pub fn generate_location(&mut self) -> (loc: LocationData)
        ensures
            is_drawn_location(loc),
    {
        let latitude = self.rg.random_int(-54_000_000, 54_000_000);
        let longitude = self.rg.random_int(-108_000_000, 108_000_000);
        let loc = LocationData::from_angles(latitude, longitude);
        assert(shows(loc, latitude as int, longitude as int));
        loc
    }

    /// The current time of day in UTC, as six digits.
    pub fn get_utc_time(&self) -> (text: String)
        ensures
            is_time_text(text@),
    {
        utc_time_now()
    }

    /// The current date in UTC, as six digits.
    pub fn get_utc_date(&self) -> (text: String)
        ensures
            is_date_text(text@),
    {
        utc_date_now()
    }

    /// The checksum of a sentence body, as two hexadecimal digits.
    pub fn calculate_checksum(&self, sentence: &str) -> (text: String)
        ensures
            text@ == checksum_text(sentence@),
    {
        crate::sentence::calculate_checksum(sentence)
    }

    /// The framed sentence around a body.
    pub fn complete_sentence(&self, sentence: &str) -> (framed: String)
        ensures
            framed@ == frame(sentence@),
    {
        crate::sentence::complete_sentence(sentence)
    }

    /// A GGA sentence for the position, at the current time and with drawn
    /// values for the fix.
    pub fn generate_gga(&mut self, loc: &LocationData, num_satellites: i32) -> (text: String)
        ensures
            is_gga(text@, *loc, num_satellites as int),
    {
        let utc_time = self.get_utc_time();
        let fix_quality = self.rg.random_int(0, 5);
        let altitude = self.rg.random_int(0, 10_000);
        let hdop = self.rg.random_int(5, 100);
        let geoid_height = self.rg.random_int(-1_000, 1_000);
        let text = gga_sentence(
            utc_time.as_str(),
            loc,
            fix_quality,
            num_satellites,
            hdop,
            altitude,
            geoid_height,
        );
        assert(gga_with(
            text@,
            *loc,
            num_satellites as int,
            utc_time@,
            fix_quality as int,
            hdop as int,
            altitude as int,
            geoid_height as int,
        ));
        text
    }

    /// An RMC sentence for the position, at the current time and date and
    /// with a drawn speed and course.
    pub fn generate_rmc(&mut self, loc: &LocationData) -> (text: String)
        ensures
            is_rmc(text@, *loc),
    {
        let utc_time = self.get_utc_time();
        let speed = self.rg.random_int(0, 1_000);
        let course = self.rg.random_int(0, 3_600);
        let utc_date = self.get_utc_date();
        let text = rmc_sentence(utc_time.as_str(), loc, speed, course, utc_date.as_str());
        assert(rmc_with(text@, *loc, utc_time@, speed as int, course as int, utc_date@));
        text
    }

    /// A GLL sentence for the position, at the current time.
    pub fn generate_gll(&mut self, loc: &LocationData) -> (text: String)
        ensures
            is_gll(text@, *loc),
    {
        let utc_time = self.get_utc_time();
        let text = gll_sentence(loc, utc_time.as_str());
        assert(gll_with(text@, *loc, utc_time@));
        text
    }

    /// The GSA sentences of the satellites, one for each constellation among
    /// them, with drawn dilutions of precision.
    pub fn generate_gsa(&mut self, satellites: &Vec<Satellite>) -> (text: String)
        ensures
            is_gsa(text@, satellites@),
    {
        let pdop = self.rg.random_int(5, 100);
        let hdop = self.rg.random_int(5, 100);
        let vdop = self.rg.random_int(5, 100);
        let text = gsa_sentences(satellites, pdop, hdop, vdop);
        assert(gsa_with(text@, satellites@, pdop as int, hdop as int, vdop as int));
        text
    }

    /// The GSV sentences of the satellites: four satellites in each sentence
    /// and the rest in the last.
    pub fn generate_gsv(&mut self, satellites: &Vec<Satellite>) -> (text: String)
        ensures
            text@ == gsv_of(satellites@),
    {
        let num_msgs = gsv_message_count(satellites.len());
        gsv_sentences(satellites, num_msgs)
    }

    /// From four to eleven satellites drawn at random.
    pub fn generate_satellites(&mut self) -> (satellites: Vec<Satellite>)
        ensures
            is_drawn_constellation(satellites@),
    {
        let num_satellites = self.rg.random_int(4, 12);
        let mut satellites: Vec<Satellite> = Vec::new();
        let mut i: i32 = 0;
        while i < num_satellites
            invariant
                0 <= i <= num_satellites,
                satellites@.len() == i,
                forall|k: int|
                    0 <= k < satellites@.len() ==> is_drawn_satellite(#[trigger] satellites@[k]),
            decreases num_satellites - i,
        {
            satellites.push(Satellite::new_random());
            i = i + 1;
        }
        satellites
    }

    /// One report: the RMC, GGA and GLL sentences of a drawn position, then
    /// the GSA and GSV sentences of drawn satellites.
    pub fn generate_sentences(&mut self) -> (sentences: String)
        ensures
            is_report(sentences@),
    {
        let loc = self.generate_location();
        let active_satellites = self.generate_satellites();
        let num_satellites = active_satellites.len() as i32;

        let mut sentences = String::new();
        let rmc = self.generate_rmc(&loc);
        sentences.append(rmc.as_str());
        let gga = self.generate_gga(&loc, num_satellites);
        sentences.append(gga.as_str());
        let gll = self.generate_gll(&loc);
        sentences.append(gll.as_str());
        let gsa = self.generate_gsa(&active_satellites);
        sentences.append(gsa.as_str());
        let gsv = self.generate_gsv(&active_satellites);
        sentences.append(gsv.as_str());
        assert(sentences@ =~= rmc@ + gga@ + gll@ + gsa@ + gsv_of(active_satellites@));
        assert(report_of(sentences@, loc, active_satellites@, rmc@, gga@, gll@, gsa@));
        sentences
    }
}

/// Whether `text` is made of the framed sentences around `bodies`, none of
/// which holds a framing character.
pub open spec fn framed_as(text: Seq<char>, bodies: Seq<Seq<char>>) -> bool {
    &&& text == frames(bodies)
    &&& forall|i: int| 0 <= i < bodies.len() ==> all_plain(#[trigger] bodies[i])
}

/// Whether `text` is made of framed sentences and of nothing else.
pub open spec fn is_framed(text: Seq<char>) -> bool {
    exists|bodies: Seq<Seq<char>>| #[trigger] framed_as(text, bodies)
}

/// Every report that the generator can write is made of framed sentences
/// and of nothing else: each begins with the only `$` in it, goes on to the
/// only `*` in it, and ends with the exclusive-or of the bytes between the
/// two as two upper-case hexadecimal digits and with the line end.
pub proof fn lemma_report_is_framed(text: Seq<char>)
    requires
        is_report(text),
    ensures
        is_framed(text),
{
    let (loc, satellites, rmc, gga, gll, gsa) = choose|
        loc: LocationData,
        satellites: Seq<Satellite>,
        rmc: Seq<char>,
        gga: Seq<char>,
        gll: Seq<char>,
        gsa: Seq<char>,
    | #[trigger]
        report_of(text, loc, satellites, rmc, gga, gll, gsa);
    let (rmc_time, speed, course, date) = choose|
        utc_time: Seq<char>,
        speed: int,
        course: int,
        utc_date: Seq<char>,
    | #[trigger]
        rmc_with(rmc, loc, utc_time, speed, course, utc_date);
    let (gga_time, fix_quality, hdop, altitude, geoid_height) = choose|
        utc_time: Seq<char>,
        fix_quality: int,
        hdop: int,
        altitude: int,
        geoid_height: int,
    | #[trigger]
        gga_with(
            gga,
            loc,
            satellites.len() as int,
            utc_time,
            fix_quality,
            hdop,
            altitude,
            geoid_height,
        );
    let gll_time = choose|utc_time: Seq<char>| #[trigger] gll_with(gll, loc, utc_time);
    let (pdop, gsa_hdop, vdop) = choose|pdop: int, hdop: int, vdop: int| #[trigger]
        gsa_with(gsa, satellites, pdop, hdop, vdop);
    let count = gsv_count(satellites.len());
    let first = rmc_body(rmc_time, loc, speed, course, date);
    let second = gga_body(
        gga_time,
        loc,
        fix_quality,
        satellites.len() as int,
        hdop,
        altitude,
        geoid_height,
    );
    let third = gll_body(loc, gll_time);
    let gsa_part = gsa_bodies(satellites, 5, pdop, gsa_hdop, vdop);
    let gsv_part = gsv_bodies(satellites, count, count);
    lemma_gsa_text_is_framed(satellites, 5, pdop, gsa_hdop, vdop);
    lemma_gsv_text_is_framed(satellites, count, count);
    lemma_frames_of_one(first);
    lemma_frames_of_one(second);
    lemma_frames_of_one(third);
    lemma_frames_of_two_lists(seq![first], seq![second]);
    lemma_frames_of_two_lists(seq![first] + seq![second], seq![third]);
    let head = seq![first] + seq![second] + seq![third];
    lemma_frames_of_two_lists(head, gsa_part);
    lemma_frames_of_two_lists(head + gsa_part, gsv_part);
    let bodies = head + gsa_part + gsv_part;
    assert(text == frames(bodies));

    let (latitude, longitude) = choose|latitude: int, longitude: int|
        -54_000_000 <= latitude < 54_000_000 && -108_000_000 <= longitude < 108_000_000
            && #[trigger] shows(loc, latitude, longitude);
    lemma_shown_location_is_plain(loc, latitude, longitude);
    lemma_clock_text_is_plain(rmc_time);
    lemma_clock_text_is_plain(date);
    lemma_clock_text_is_plain(gga_time);
    lemma_clock_text_is_plain(gll_time);
    lemma_rmc_body_is_plain(rmc_time, loc, speed, course, date);
    lemma_gga_body_is_plain(
        gga_time,
        loc,
        fix_quality,
        satellites.len() as int,
        hdop,
        altitude,
        geoid_height,
    );
    lemma_gll_body_is_plain(loc, gll_time);
    lemma_gsa_bodies_are_plain(satellites, 5, pdop, gsa_hdop, vdop);
    lemma_gsv_bodies_are_plain(satellites, count, count);
    assert forall|i: int| 0 <= i < bodies.len() implies all_plain(#[trigger] bodies[i]) by {
        if i < 3 {
            assert(bodies[i] == head[i]);
        } else if i < 3 + gsa_part.len() {
            assert(bodies[i] == gsa_part[i - 3]);
        } else {
            assert(bodies[i] == gsv_part[i - 3 - gsa_part.len()]);
        }
    }
    assert(framed_as(text, bodies));
}

/// Every position that the generator can draw is shown in the fixed layout:
/// the latitude as two digits of degrees, two of minutes, a point and four
/// more digits, the longitude the same with three digits of degrees, and the
/// hemisphere letters `N` or `S` and `E` or `W`.
pub proof fn lemma_drawn_location_layout(loc: LocationData)
    requires
        is_drawn_location(loc),
    ensures
        loc.latitude@.len() == 9,
        loc.latitude@[4] == '.',
        forall|i: int| 0 <= i < 9 && i != 4 ==> is_digit(#[trigger] loc.latitude@[i]),
        loc.longitude@.len() == 10,
        loc.longitude@[5] == '.',
        forall|i: int| 0 <= i < 10 && i != 5 ==> is_digit(#[trigger] loc.longitude@[i]),
        loc.ns == 'N' || loc.ns == 'S',
        loc.ew == 'E' || loc.ew == 'W',
{
    let (latitude, longitude) = choose|latitude: int, longitude: int|
        -54_000_000 <= latitude < 54_000_000 && -108_000_000 <= longitude < 108_000_000
            && #[trigger] shows(loc, latitude, longitude);
    lemma_location_layout(loc, latitude, longitude);
}

} // verus!
