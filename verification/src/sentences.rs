//! The sentences of one report, built from values given by the caller.
//! Numbers with one decimal place are given in tenths.

use crate::constellation::{code_of, lemma_code_is_plain, Constellation, Satellite};
use crate::location::{is_plain_location, LocationData};
use crate::sentence::{complete_sentence, frame, frames};
use crate::text::{
    all_plain, append_char, append_decimal, append_integer, append_tenths, decimal, integer,
    lemma_decimal_is_plain, lemma_integer_is_plain, lemma_plain_concat, lemma_tenths_is_plain,
    tenths,
};
use vstd::prelude::*;
use vstd::string::StringExecFns;

verus! {

/// The body of a GGA sentence: time, position, fix quality, number of
/// satellites, horizontal dilution of precision, altitude and height of the
/// geoid, both in metres.
pub open spec fn gga_body(
    utc_time: Seq<char>,
    loc: LocationData,
    fix_quality: int,
    num_satellites: int,
    hdop: int,
    altitude: int,
    geoid_height: int,
) -> Seq<char> {
    "GPGGA,"@ + utc_time + ","@ + loc.latitude@ + seq![','] + seq![loc.ns] + seq![',']
        + loc.longitude@ + seq![','] + seq![loc.ew] + seq![','] + integer(fix_quality) + ","@
        + integer(num_satellites) + ","@ + tenths(hdop) + ","@ + tenths(altitude) + ",M,"@
        + tenths(geoid_height) + ",M,,"@
}

/// The body of an RMC sentence: time, status `A`, latitude and longitude,
/// each followed by its hemisphere letter in a field of its own, speed in
/// knots, course in degrees, and date.
pub open spec fn rmc_body(
    utc_time: Seq<char>,
    loc: LocationData,
    speed: int,
    course: int,
    utc_date: Seq<char>,
) -> Seq<char> {
    "GPRMC,"@ + utc_time + ",A,"@ + loc.latitude@ + seq![','] + seq![loc.ns] + seq![',']
        + loc.longitude@ + seq![','] + seq![loc.ew] + seq![','] + tenths(speed) + ","@ + tenths(
        course,
    ) + ","@ + utc_date + ",,,"@
}

/// The body of a GLL sentence: latitude and longitude, each followed by its
/// hemisphere letter in a field of its own, time, and status `A`.
pub open spec fn gll_body(loc: LocationData, utc_time: Seq<char>) -> Seq<char> {
    "GPGLL,"@ + loc.latitude@ + seq![','] + seq![loc.ns] + seq![','] + loc.longitude@ + seq![',']
        + seq![loc.ew] + seq![','] + utc_time + ",A"@
}

/// The GGA sentence of the given values, framed.
pub fn gga_sentence(
    utc_time: &str,
    loc: &LocationData,
    fix_quality: i32,
    num_satellites: i32,
    hdop: i32,
    altitude: i32,
    geoid_height: i32,
) -> (sentence: String)
    ensures
        sentence@ == frame(
            gga_body(
                utc_time@,
                *loc,
                fix_quality as int,
                num_satellites as int,
                hdop as int,
                altitude as int,
                geoid_height as int,
            ),
        ),
{
    let mut body = String::new();
    body.append("GPGGA,");
    body.append(utc_time);
    body.append(",");
    body.append(loc.latitude.as_str());
    append_char(&mut body, ',');
    append_char(&mut body, loc.ns);
    append_char(&mut body, ',');
    body.append(loc.longitude.as_str());
    append_char(&mut body, ',');
    append_char(&mut body, loc.ew);
    append_char(&mut body, ',');
    append_integer(&mut body, fix_quality);
    body.append(",");
    append_integer(&mut body, num_satellites);
    body.append(",");
    append_tenths(&mut body, hdop);
    body.append(",");
    append_tenths(&mut body, altitude);
    body.append(",M,");
    append_tenths(&mut body, geoid_height);
    body.append(",M,,");
    assert(body@ == Seq::<char>::empty() + gga_body(
        utc_time@,
        *loc,
        fix_quality as int,
        num_satellites as int,
        hdop as int,
        altitude as int,
        geoid_height as int,
    ));
    complete_sentence(body.as_str())
}

/// The RMC sentence of the given values, framed.
pub fn rmc_sentence(
    utc_time: &str,
    loc: &LocationData,
    speed: i32,
    course: i32,
    utc_date: &str,
) -> (sentence: String)
    ensures
        sentence@ == frame(rmc_body(utc_time@, *loc, speed as int, course as int, utc_date@)),
{
    let mut body = String::new();
    body.append("GPRMC,");
    body.append(utc_time);
    body.append(",A,");
    body.append(loc.latitude.as_str());
    append_char(&mut body, ',');
    append_char(&mut body, loc.ns);
    append_char(&mut body, ',');
    body.append(loc.longitude.as_str());
    append_char(&mut body, ',');
    append_char(&mut body, loc.ew);
    append_char(&mut body, ',');
    append_tenths(&mut body, speed);
    body.append(",");
    append_tenths(&mut body, course);
    body.append(",");
    body.append(utc_date);
    body.append(",,,");
    assert(body@ == Seq::<char>::empty() + rmc_body(
        utc_time@,
        *loc,
        speed as int,
        course as int,
        utc_date@,
    ));
    complete_sentence(body.as_str())
}

/// The GLL sentence of the given values, framed.
pub fn gll_sentence(loc: &LocationData, utc_time: &str) -> (sentence: String)
    ensures
        sentence@ == frame(gll_body(*loc, utc_time@)),
{
    let mut body = String::new();
    body.append("GPGLL,");
    body.append(loc.latitude.as_str());
    append_char(&mut body, ',');
    append_char(&mut body, loc.ns);
    append_char(&mut body, ',');
    body.append(loc.longitude.as_str());
    append_char(&mut body, ',');
    append_char(&mut body, loc.ew);
    append_char(&mut body, ',');
    body.append(utc_time);
    body.append(",A");
    assert(body@ == Seq::<char>::empty() + gll_body(*loc, utc_time@));
    complete_sentence(body.as_str())
}

/// The numbers of the satellites of one constellation, in the order of the
/// list.
pub open spec fn ids_of(satellites: Seq<Satellite>, constellation: Constellation) -> Seq<u16>
    decreases satellites.len(),
{
    if satellites.len() == 0 {
        Seq::empty()
    } else if satellites.last().constellation == constellation {
        ids_of(satellites.drop_last(), constellation).push(satellites.last().id)
    } else {
        ids_of(satellites.drop_last(), constellation)
    }
}

/// Satellite numbers as numerals with a comma between each two.
pub open spec fn id_list(ids: Seq<u16>) -> Seq<char>
    decreases ids.len(),
{
    if ids.len() == 0 {
        Seq::empty()
    } else if ids.len() == 1 {
        decimal(ids[0] as nat)
    } else {
        id_list(ids.drop_last()) + ","@ + decimal(ids.last() as nat)
    }
}

/// `count` commas.
pub open spec fn commas(count: nat) -> Seq<char> {
    Seq::new(count, |i: int| ',')
}

/// The commas that fill a list of `used` satellite numbers up to the twelve
/// fields of a GSA sentence.
pub open spec fn gsa_fill(used: nat) -> Seq<char> {
    if used < 12 {
        commas((12 - used) as nat)
    } else {
        Seq::empty()
    }
}

/// The body of the GSA sentence of one constellation: automatic mode, a
/// three-dimensional fix, the satellites in use, and the three dilutions of
/// precision.
pub open spec fn gsa_body(
    constellation: Constellation,
    ids: Seq<u16>,
    pdop: int,
    hdop: int,
    vdop: int,
) -> Seq<char> {
    code_of(constellation) + "GSA,A,3,"@ + id_list(ids) + gsa_fill(ids.len()) + ","@ + tenths(
        pdop,
    ) + ","@ + tenths(hdop) + ","@ + tenths(vdop)
}

/// The constellation at a place in the order of the type.
pub open spec fn constellation_at(index: int) -> Constellation {
    if index == 0 {
        Constellation::GPS
    } else if index == 1 {
        Constellation::GLONASS
    } else if index == 2 {
        Constellation::GALILEO
    } else if index == 3 {
        Constellation::BEIDOU
    } else {
        Constellation::QZSS
    }
}

/// The GSA sentence of one constellation, or nothing where the list holds no
/// satellite of it.
pub open spec fn gsa_part(
    satellites: Seq<Satellite>,
    constellation: Constellation,
    pdop: int,
    hdop: int,
    vdop: int,
) -> Seq<char> {
    if ids_of(satellites, constellation).len() == 0 {
        Seq::empty()
    } else {
        frame(gsa_body(constellation, ids_of(satellites, constellation), pdop, hdop, vdop))
    }
}

/// The GSA sentences of the first `count` constellations, in their order.
pub open spec fn gsa_text(
    satellites: Seq<Satellite>,
    count: nat,
    pdop: int,
    hdop: int,
    vdop: int,
) -> Seq<char>
    decreases count,
{
    if count == 0 {
        Seq::empty()
    } else {
        gsa_text(satellites, (count - 1) as nat, pdop, hdop, vdop) + gsa_part(
            satellites,
            constellation_at(count - 1),
            pdop,
            hdop,
            vdop,
        )
    }
}

/// The numbers of the satellites of `constellation` in `satellites`.
pub fn collect_ids(satellites: &Vec<Satellite>, constellation: Constellation) -> (ids: Vec<u16>)
    ensures
        ids@ == ids_of(satellites@, constellation),
{
    let mut ids: Vec<u16> = Vec::new();
    let mut i: usize = 0;
    while i < satellites.len()
        invariant
            i <= satellites.len(),
            ids@ == ids_of(satellites@.take(i as int), constellation),
        decreases satellites.len() - i,
    {
        assert(satellites@.take(i + 1).drop_last() =~= satellites@.take(i as int));
        if satellites[i].constellation == constellation {
            ids.push(satellites[i].id);
        }
        i = i + 1;
    }
    assert(satellites@.take(i as int) =~= satellites@);
    ids
}

/// Appends satellite numbers with a comma between each two.
pub fn append_id_list(s: &mut String, ids: &Vec<u16>)
    ensures
        final(s)@ == old(s)@ + id_list(ids@),
{
    let mut i: usize = 0;
    while i < ids.len()
        invariant
            i <= ids.len(),
            s@ == old(s)@ + id_list(ids@.take(i as int)),
        decreases ids.len() - i,
    {
        assert(ids@.take(i + 1).drop_last() =~= ids@.take(i as int));
        if i > 0 {
            s.append(",");
        }
        append_decimal(s, ids[i] as u64);
        i = i + 1;
        assert(s@ =~= old(s)@ + id_list(ids@.take(i as int)));
    }
    assert(ids@.take(i as int) =~= ids@);
}

/// The GSA sentence of one constellation with the given satellites in use,
/// framed.
pub fn gsa_sentence(
    constellation: Constellation,
    ids: &Vec<u16>,
    pdop: i32,
    hdop: i32,
    vdop: i32,
) -> (sentence: String)
    ensures
        sentence@ == frame(gsa_body(constellation, ids@, pdop as int, hdop as int, vdop as int)),
{
    let mut body = constellation.to_code();
    body.append("GSA,A,3,");
    append_id_list(&mut body, ids);
    let ghost listed = body@;
    let mut used: usize = ids.len();
    while used < 12
        invariant
            ids.len() <= used,
            ids.len() >= 12 ==> used == ids.len(),
            ids.len() < 12 ==> used <= 12,
            body@ == listed + commas((used - ids.len()) as nat),
        decreases 12 - used,
    {
        body.push(',');
        used = used + 1;
        assert(body@ =~= listed + commas((used - ids.len()) as nat));
    }
    assert(body@ =~= listed + gsa_fill(ids@.len()));
    body.append(",");
    append_tenths(&mut body, pdop);
    body.append(",");
    append_tenths(&mut body, hdop);
    body.append(",");
    append_tenths(&mut body, vdop);
    complete_sentence(body.as_str())
}

/// The GSA sentences of a list of satellites: one for each constellation
/// that has a satellite in the list, in the order of the constellations.
pub fn gsa_sentences(satellites: &Vec<Satellite>, pdop: i32, hdop: i32, vdop: i32) -> (text:
    String)
    ensures
        text@ == gsa_text(satellites@, 5, pdop as int, hdop as int, vdop as int),
{
    let mut text = String::new();
    let mut index: usize = 0;
    while index < Constellation::len()
        invariant
            index <= 5,
            text@ == gsa_text(satellites@, index as nat, pdop as int, hdop as int, vdop as int),
        decreases 5 - index,
    {
        let constellation = Constellation::from_index(index);
        assert(constellation == constellation_at(index as int));
        let ids = collect_ids(satellites, constellation);
        if ids.len() > 0 {
            let sentence = gsa_sentence(constellation, &ids, pdop, hdop, vdop);
            text.append(sentence.as_str());
        } else {
            assert(text@ + Seq::<char>::empty() =~= text@);
        }
        index = index + 1;
    }
    text
}

/// The satellites of a GSV sentence: for each its number, then an elevation
/// and an azimuth of zero, each field with a comma behind it.
pub open spec fn gsv_entries(satellites: Seq<Satellite>) -> Seq<char>
    decreases satellites.len(),
{
    if satellites.len() == 0 {
        Seq::empty()
    } else {
        gsv_entries(satellites.drop_last()) + decimal(satellites.last().id as nat) + ",0,0,"@
    }
}

/// The body of one GSV sentence: the number of sentences in the group, the
/// number of this one, how many satellites it lists, and the satellites.
pub open spec fn gsv_body(total: nat, number: nat, listed: Seq<Satellite>) -> Seq<char> {
    "GPGSV,"@ + decimal(total) + ","@ + decimal(number) + ","@ + decimal(listed.len()) + ","@
        + gsv_entries(listed)
}

/// Whether a list of `len` satellites can be told in `total` sentences:
/// every sentence but the last takes four of them, so the last must begin
/// inside the list.
pub open spec fn gsv_fits(len: nat, total: nat) -> bool {
    total == 0 || 4 * (total - 1) <= len
}

/// The satellites of the sentence at `index`, counted from zero, in a group
/// of `total`: four from where the sentence before stopped, and in the last
/// sentence all that are left.
pub open spec fn gsv_share(satellites: Seq<Satellite>, total: nat, index: nat) -> Seq<
    Satellite,
> {
    if index + 1 == total {
        satellites.subrange(4 * index as int, satellites.len() as int)
    } else {
        satellites.subrange(4 * index as int, 4 * index as int + 4)
    }
}

/// The first `count` GSV sentences of a group of `total`.
pub open spec fn gsv_text(satellites: Seq<Satellite>, total: nat, count: nat) -> Seq<char>
    decreases count,
{
    if count == 0 {
        Seq::empty()
    } else {
        gsv_text(satellites, total, (count - 1) as nat) + frame(
            gsv_body(total, count, gsv_share(satellites, total, (count - 1) as nat)),
        )
    }
}

/// The number of GSV sentences that tell a list of `len` satellites four at
/// a time.
pub open spec fn gsv_count(len: nat) -> nat {
    (len + 3) / 4
}

/// Appends the satellites from `start` up to `end` as a GSV sentence lists
/// them.
pub fn append_gsv_entries(s: &mut String, satellites: &Vec<Satellite>, start: usize, end: usize)
    requires
        start <= end <= satellites.len(),
    ensures
        final(s)@ == old(s)@ + gsv_entries(satellites@.subrange(start as int, end as int)),
{
    let mut i: usize = start;
    assert(satellites@.subrange(start as int, start as int) =~= Seq::<Satellite>::empty());
    while i < end
        invariant
            start <= i <= end <= satellites.len(),
            s@ == old(s)@ + gsv_entries(satellites@.subrange(start as int, i as int)),
        decreases end - i,
    {
        assert(satellites@.subrange(start as int, i + 1).drop_last() =~= satellites@.subrange(
            start as int,
            i as int,
        ));
        append_decimal(s, satellites[i].id as u64);
        s.append(",0,0,");
        i = i + 1;
        assert(s@ =~= old(s)@ + gsv_entries(satellites@.subrange(start as int, i as int)));
    }
}

/// A group of `num_msgs` GSV sentences that tells `satellites`: four in each
/// sentence but the last, which takes the rest.
pub fn gsv_sentences(satellites: &Vec<Satellite>, num_msgs: usize) -> (text: String)
    requires
        gsv_fits(satellites@.len(), num_msgs as nat),
    ensures
        text@ == gsv_text(satellites@, num_msgs as nat, num_msgs as nat),
{
    let len = satellites.len();
    let mut text = String::new();
    let mut i: usize = 0;
    while i < num_msgs
        invariant
            i <= num_msgs,
            len == satellites@.len(),
            gsv_fits(satellites@.len(), num_msgs as nat),
            text@ == gsv_text(satellites@, num_msgs as nat, i as nat),
        decreases num_msgs - i,
    {
        assert(4 * (num_msgs - 1) <= len);
        let start = i * 4;
        let end = if i == num_msgs - 1 {
            len
        } else {
            (i + 1) * 4
        };
        assert(satellites@.subrange(start as int, end as int) == gsv_share(
            satellites@,
            num_msgs as nat,
            i as nat,
        ));
        let mut body = String::new();
        body.append("GPGSV,");
        append_decimal(&mut body, num_msgs as u64);
        body.append(",");
        append_decimal(&mut body, (i + 1) as u64);
        body.append(",");
        append_decimal(&mut body, (end - start) as u64);
        body.append(",");
        append_gsv_entries(&mut body, satellites, start, end);
        assert(body@ == Seq::<char>::empty() + gsv_body(
            num_msgs as nat,
            (i + 1) as nat,
            gsv_share(satellites@, num_msgs as nat, i as nat),
        ));
        let sentence = complete_sentence(body.as_str());
        text.append(sentence.as_str());
        i = i + 1;
    }
    text
}

/// The number of GSV sentences that tell `len` satellites four at a time.
pub fn gsv_message_count(len: usize) -> (count: usize)
    ensures
        count == gsv_count(len as nat),
        gsv_fits(len as nat, count as nat),
{
    if len % 4 == 0 {
        len / 4
    } else {
        len / 4 + 1
    }
}

/// The bodies of the GSA sentences of the first `count` constellations.
pub open spec fn gsa_bodies(
    satellites: Seq<Satellite>,
    count: nat,
    pdop: int,
    hdop: int,
    vdop: int,
) -> Seq<Seq<char>>
    decreases count,
{
    if count == 0 {
        Seq::empty()
    } else {
        let before = gsa_bodies(satellites, (count - 1) as nat, pdop, hdop, vdop);
        let constellation = constellation_at(count - 1);
        if ids_of(satellites, constellation).len() == 0 {
            before
        } else {
            before.push(
                gsa_body(constellation, ids_of(satellites, constellation), pdop, hdop, vdop),
            )
        }
    }
}

/// The bodies of the first `count` GSV sentences of a group of `total`.
pub open spec fn gsv_bodies(satellites: Seq<Satellite>, total: nat, count: nat) -> Seq<Seq<char>>
    decreases count,
{
    if count == 0 {
        Seq::empty()
    } else {
        gsv_bodies(satellites, total, (count - 1) as nat).push(
            gsv_body(total, count, gsv_share(satellites, total, (count - 1) as nat)),
        )
    }
}

/// The GSA text is made of framed sentences and of nothing else.
pub proof fn lemma_gsa_text_is_framed(
    satellites: Seq<Satellite>,
    count: nat,
    pdop: int,
    hdop: int,
    vdop: int,
)
    ensures
        gsa_text(satellites, count, pdop, hdop, vdop) == frames(
            gsa_bodies(satellites, count, pdop, hdop, vdop),
        ),
    decreases count,
{
    if count > 0 {
        lemma_gsa_text_is_framed(satellites, (count - 1) as nat, pdop, hdop, vdop);
        let before = gsa_bodies(satellites, (count - 1) as nat, pdop, hdop, vdop);
        let constellation = constellation_at(count - 1);
        if ids_of(satellites, constellation).len() == 0 {
            assert(frames(before) + Seq::<char>::empty() =~= frames(before));
        } else {
            let body = gsa_body(constellation, ids_of(satellites, constellation), pdop, hdop, vdop);
            assert(before.push(body).drop_last() =~= before);
        }
    }
}

/// The GSV text is made of framed sentences and of nothing else, one for
/// each message.
pub proof fn lemma_gsv_text_is_framed(satellites: Seq<Satellite>, total: nat, count: nat)
    ensures
        gsv_text(satellites, total, count) == frames(gsv_bodies(satellites, total, count)),
        gsv_bodies(satellites, total, count).len() == count,
    decreases count,
{
    if count > 0 {
        lemma_gsv_text_is_framed(satellites, total, (count - 1) as nat);
        let before = gsv_bodies(satellites, total, (count - 1) as nat);
        let body = gsv_body(total, count, gsv_share(satellites, total, (count - 1) as nat));
        assert(before.push(body).drop_last() =~= before);
    }
}

/// A GGA body of a time and a location that can stand inside a sentence can
/// do so itself.
pub proof fn lemma_gga_body_is_plain(
    utc_time: Seq<char>,
    loc: LocationData,
    fix_quality: int,
    num_satellites: int,
    hdop: int,
    altitude: int,
    geoid_height: int,
)
    requires
        all_plain(utc_time),
        is_plain_location(loc),
    ensures
        all_plain(
            gga_body(utc_time, loc, fix_quality, num_satellites, hdop, altitude, geoid_height),
        ),
{
    reveal_strlit("GPGGA,");
    reveal_strlit(",");
    reveal_strlit(",M,");
    reveal_strlit(",M,,");
    lemma_integer_is_plain(fix_quality);
    lemma_integer_is_plain(num_satellites);
    lemma_tenths_is_plain(hdop);
    lemma_tenths_is_plain(altitude);
    lemma_tenths_is_plain(geoid_height);
    lemma_plain_concat("GPGGA,"@, utc_time);
    lemma_plain_concat("GPGGA,"@ + utc_time, ","@);
    lemma_plain_concat("GPGGA,"@ + utc_time + ","@, loc.latitude@);
    lemma_plain_concat("GPGGA,"@ + utc_time + ","@ + loc.latitude@, seq![',']);
    lemma_plain_concat("GPGGA,"@ + utc_time + ","@ + loc.latitude@ + seq![','], seq![loc.ns]);
    lemma_plain_concat("GPGGA,"@ + utc_time + ","@ + loc.latitude@ + seq![','] + seq![loc.ns], seq![',']);
    lemma_plain_concat("GPGGA,"@ + utc_time + ","@ + loc.latitude@ + seq![','] + seq![loc.ns] + seq![','], loc.longitude@);
    lemma_plain_concat("GPGGA,"@ + utc_time + ","@ + loc.latitude@ + seq![','] + seq![loc.ns] + seq![','] + loc.longitude@, seq![',']);
    lemma_plain_concat("GPGGA,"@ + utc_time + ","@ + loc.latitude@ + seq![','] + seq![loc.ns] + seq![','] + loc.longitude@ + seq![','], seq![loc.ew]);
    lemma_plain_concat("GPGGA,"@ + utc_time + ","@ + loc.latitude@ + seq![','] + seq![loc.ns] + seq![','] + loc.longitude@ + seq![','] + seq![loc.ew], seq![',']);
    lemma_plain_concat("GPGGA,"@ + utc_time + ","@ + loc.latitude@ + seq![','] + seq![loc.ns] + seq![','] + loc.longitude@ + seq![','] + seq![loc.ew] + seq![','], integer(fix_quality));
    lemma_plain_concat("GPGGA,"@ + utc_time + ","@ + loc.latitude@ + seq![','] + seq![loc.ns] + seq![','] + loc.longitude@ + seq![','] + seq![loc.ew] + seq![','] + integer(fix_quality), ","@);
    lemma_plain_concat("GPGGA,"@ + utc_time + ","@ + loc.latitude@ + seq![','] + seq![loc.ns] + seq![','] + loc.longitude@ + seq![','] + seq![loc.ew] + seq![','] + integer(fix_quality) + ","@, integer(num_satellites));
    lemma_plain_concat("GPGGA,"@ + utc_time + ","@ + loc.latitude@ + seq![','] + seq![loc.ns] + seq![','] + loc.longitude@ + seq![','] + seq![loc.ew] + seq![','] + integer(fix_quality) + ","@ + integer(num_satellites), ","@);
    lemma_plain_concat("GPGGA,"@ + utc_time + ","@ + loc.latitude@ + seq![','] + seq![loc.ns] + seq![','] + loc.longitude@ + seq![','] + seq![loc.ew] + seq![','] + integer(fix_quality) + ","@ + integer(num_satellites) + ","@, tenths(hdop));
    lemma_plain_concat("GPGGA,"@ + utc_time + ","@ + loc.latitude@ + seq![','] + seq![loc.ns] + seq![','] + loc.longitude@ + seq![','] + seq![loc.ew] + seq![','] + integer(fix_quality) + ","@ + integer(num_satellites) + ","@ + tenths(hdop), ","@);
    lemma_plain_concat("GPGGA,"@ + utc_time + ","@ + loc.latitude@ + seq![','] + seq![loc.ns] + seq![','] + loc.longitude@ + seq![','] + seq![loc.ew] + seq![','] + integer(fix_quality) + ","@ + integer(num_satellites) + ","@ + tenths(hdop) + ","@, tenths(altitude));
    lemma_plain_concat("GPGGA,"@ + utc_time + ","@ + loc.latitude@ + seq![','] + seq![loc.ns] + seq![','] + loc.longitude@ + seq![','] + seq![loc.ew] + seq![','] + integer(fix_quality) + ","@ + integer(num_satellites) + ","@ + tenths(hdop) + ","@ + tenths(altitude), ",M,"@);
    lemma_plain_concat("GPGGA,"@ + utc_time + ","@ + loc.latitude@ + seq![','] + seq![loc.ns] + seq![','] + loc.longitude@ + seq![','] + seq![loc.ew] + seq![','] + integer(fix_quality) + ","@ + integer(num_satellites) + ","@ + tenths(hdop) + ","@ + tenths(altitude) + ",M,"@, tenths(geoid_height));
    lemma_plain_concat("GPGGA,"@ + utc_time + ","@ + loc.latitude@ + seq![','] + seq![loc.ns] + seq![','] + loc.longitude@ + seq![','] + seq![loc.ew] + seq![','] + integer(fix_quality) + ","@ + integer(num_satellites) + ","@ + tenths(hdop) + ","@ + tenths(altitude) + ",M,"@ + tenths(geoid_height), ",M,,"@);
}

/// An RMC body of a time, a date and a location that can stand inside a
/// sentence can do so itself.
pub proof fn lemma_rmc_body_is_plain(
    utc_time: Seq<char>,
    loc: LocationData,
    speed: int,
    course: int,
    utc_date: Seq<char>,
)
    requires
        all_plain(utc_time),
        all_plain(utc_date),
        is_plain_location(loc),
    ensures
        all_plain(rmc_body(utc_time, loc, speed, course, utc_date)),
{
    reveal_strlit("GPRMC,");
    reveal_strlit(",A,");
    reveal_strlit(",");
    reveal_strlit(",,,");
    lemma_tenths_is_plain(speed);
    lemma_tenths_is_plain(course);
    lemma_plain_concat("GPRMC,"@, utc_time);
    lemma_plain_concat("GPRMC,"@ + utc_time, ",A,"@);
    lemma_plain_concat("GPRMC,"@ + utc_time + ",A,"@, loc.latitude@);
    lemma_plain_concat("GPRMC,"@ + utc_time + ",A,"@ + loc.latitude@, seq![',']);
    lemma_plain_concat("GPRMC,"@ + utc_time + ",A,"@ + loc.latitude@ + seq![','], seq![loc.ns]);
    lemma_plain_concat("GPRMC,"@ + utc_time + ",A,"@ + loc.latitude@ + seq![','] + seq![loc.ns], seq![',']);
    lemma_plain_concat("GPRMC,"@ + utc_time + ",A,"@ + loc.latitude@ + seq![','] + seq![loc.ns] + seq![','], loc.longitude@);
    lemma_plain_concat("GPRMC,"@ + utc_time + ",A,"@ + loc.latitude@ + seq![','] + seq![loc.ns] + seq![','] + loc.longitude@, seq![',']);
    lemma_plain_concat("GPRMC,"@ + utc_time + ",A,"@ + loc.latitude@ + seq![','] + seq![loc.ns] + seq![','] + loc.longitude@ + seq![','], seq![loc.ew]);
    lemma_plain_concat("GPRMC,"@ + utc_time + ",A,"@ + loc.latitude@ + seq![','] + seq![loc.ns] + seq![','] + loc.longitude@ + seq![','] + seq![loc.ew], seq![',']);
    lemma_plain_concat("GPRMC,"@ + utc_time + ",A,"@ + loc.latitude@ + seq![','] + seq![loc.ns] + seq![','] + loc.longitude@ + seq![','] + seq![loc.ew] + seq![','], tenths(speed));
    lemma_plain_concat("GPRMC,"@ + utc_time + ",A,"@ + loc.latitude@ + seq![','] + seq![loc.ns] + seq![','] + loc.longitude@ + seq![','] + seq![loc.ew] + seq![','] + tenths(speed), ","@);
    lemma_plain_concat("GPRMC,"@ + utc_time + ",A,"@ + loc.latitude@ + seq![','] + seq![loc.ns] + seq![','] + loc.longitude@ + seq![','] + seq![loc.ew] + seq![','] + tenths(speed) + ","@, tenths(course));
    lemma_plain_concat("GPRMC,"@ + utc_time + ",A,"@ + loc.latitude@ + seq![','] + seq![loc.ns] + seq![','] + loc.longitude@ + seq![','] + seq![loc.ew] + seq![','] + tenths(speed) + ","@ + tenths(course), ","@);
    lemma_plain_concat("GPRMC,"@ + utc_time + ",A,"@ + loc.latitude@ + seq![','] + seq![loc.ns] + seq![','] + loc.longitude@ + seq![','] + seq![loc.ew] + seq![','] + tenths(speed) + ","@ + tenths(course) + ","@, utc_date);
    lemma_plain_concat("GPRMC,"@ + utc_time + ",A,"@ + loc.latitude@ + seq![','] + seq![loc.ns] + seq![','] + loc.longitude@ + seq![','] + seq![loc.ew] + seq![','] + tenths(speed) + ","@ + tenths(course) + ","@ + utc_date, ",,,"@);
}

/// A GLL body of a time and a location that can stand inside a sentence can
/// do so itself.
pub proof fn lemma_gll_body_is_plain(loc: LocationData, utc_time: Seq<char>)
    requires
        all_plain(utc_time),
        is_plain_location(loc),
    ensures
        all_plain(gll_body(loc, utc_time)),
{
    reveal_strlit("GPGLL,");
    reveal_strlit(",A");
    lemma_plain_concat("GPGLL,"@, loc.latitude@);
    lemma_plain_concat("GPGLL,"@ + loc.latitude@, seq![',']);
    lemma_plain_concat("GPGLL,"@ + loc.latitude@ + seq![','], seq![loc.ns]);
    lemma_plain_concat("GPGLL,"@ + loc.latitude@ + seq![','] + seq![loc.ns], seq![',']);
    lemma_plain_concat("GPGLL,"@ + loc.latitude@ + seq![','] + seq![loc.ns] + seq![','], loc.longitude@);
    lemma_plain_concat("GPGLL,"@ + loc.latitude@ + seq![','] + seq![loc.ns] + seq![','] + loc.longitude@, seq![',']);
    lemma_plain_concat("GPGLL,"@ + loc.latitude@ + seq![','] + seq![loc.ns] + seq![','] + loc.longitude@ + seq![','], seq![loc.ew]);
    lemma_plain_concat("GPGLL,"@ + loc.latitude@ + seq![','] + seq![loc.ns] + seq![','] + loc.longitude@ + seq![','] + seq![loc.ew], seq![',']);
    lemma_plain_concat("GPGLL,"@ + loc.latitude@ + seq![','] + seq![loc.ns] + seq![','] + loc.longitude@ + seq![','] + seq![loc.ew] + seq![','], utc_time);
    lemma_plain_concat("GPGLL,"@ + loc.latitude@ + seq![','] + seq![loc.ns] + seq![','] + loc.longitude@ + seq![','] + seq![loc.ew] + seq![','] + utc_time, ",A"@);
}

/// A list of satellite numbers can stand inside a sentence.
pub proof fn lemma_id_list_is_plain(ids: Seq<u16>)
    ensures
        all_plain(id_list(ids)),
    decreases ids.len(),
{
    reveal_strlit(",");
    if ids.len() == 1 {
        lemma_decimal_is_plain(ids[0] as nat);
    } else if ids.len() > 1 {
        lemma_id_list_is_plain(ids.drop_last());
        lemma_decimal_is_plain(ids.last() as nat);
        lemma_plain_concat(id_list(ids.drop_last()), ","@);
        lemma_plain_concat(id_list(ids.drop_last()) + ","@, decimal(ids.last() as nat));
    }
}

/// Every GSA body can stand inside a sentence.
pub proof fn lemma_gsa_body_is_plain(
    constellation: Constellation,
    ids: Seq<u16>,
    pdop: int,
    hdop: int,
    vdop: int,
)
    ensures
        all_plain(gsa_body(constellation, ids, pdop, hdop, vdop)),
{
    reveal_strlit("GSA,A,3,");
    reveal_strlit(",");
    lemma_code_is_plain(constellation);
    lemma_id_list_is_plain(ids);
    lemma_tenths_is_plain(pdop);
    lemma_tenths_is_plain(hdop);
    lemma_tenths_is_plain(vdop);
    assert(all_plain(gsa_fill(ids.len())));
    lemma_plain_concat(code_of(constellation), "GSA,A,3,"@);
    lemma_plain_concat(code_of(constellation) + "GSA,A,3,"@, id_list(ids));
    lemma_plain_concat(code_of(constellation) + "GSA,A,3,"@ + id_list(ids), gsa_fill(ids.len()));
    lemma_plain_concat(code_of(constellation) + "GSA,A,3,"@ + id_list(ids) + gsa_fill(ids.len()), ","@);
    lemma_plain_concat(code_of(constellation) + "GSA,A,3,"@ + id_list(ids) + gsa_fill(ids.len()) + ","@, tenths(pdop));
    lemma_plain_concat(code_of(constellation) + "GSA,A,3,"@ + id_list(ids) + gsa_fill(ids.len()) + ","@ + tenths(pdop), ","@);
    lemma_plain_concat(code_of(constellation) + "GSA,A,3,"@ + id_list(ids) + gsa_fill(ids.len()) + ","@ + tenths(pdop) + ","@, tenths(hdop));
    lemma_plain_concat(code_of(constellation) + "GSA,A,3,"@ + id_list(ids) + gsa_fill(ids.len()) + ","@ + tenths(pdop) + ","@ + tenths(hdop), ","@);
    lemma_plain_concat(code_of(constellation) + "GSA,A,3,"@ + id_list(ids) + gsa_fill(ids.len()) + ","@ + tenths(pdop) + ","@ + tenths(hdop) + ","@, tenths(vdop));
}

/// The satellites of a GSV sentence can stand inside a sentence.
pub proof fn lemma_gsv_entries_are_plain(satellites: Seq<Satellite>)
    ensures
        all_plain(gsv_entries(satellites)),
    decreases satellites.len(),
{
    reveal_strlit(",0,0,");
    if satellites.len() > 0 {
        lemma_gsv_entries_are_plain(satellites.drop_last());
        lemma_decimal_is_plain(satellites.last().id as nat);
        lemma_plain_concat(
            gsv_entries(satellites.drop_last()),
            decimal(satellites.last().id as nat),
        );
        lemma_plain_concat(
            gsv_entries(satellites.drop_last()) + decimal(satellites.last().id as nat),
            ",0,0,"@,
        );
    }
}

/// Every GSV body can stand inside a sentence.
pub proof fn lemma_gsv_body_is_plain(total: nat, number: nat, listed: Seq<Satellite>)
    ensures
        all_plain(gsv_body(total, number, listed)),
{
    reveal_strlit("GPGSV,");
    reveal_strlit(",");
    lemma_decimal_is_plain(total);
    lemma_decimal_is_plain(number);
    lemma_decimal_is_plain(listed.len());
    lemma_gsv_entries_are_plain(listed);
    lemma_plain_concat("GPGSV,"@, decimal(total));
    lemma_plain_concat("GPGSV,"@ + decimal(total), ","@);
    lemma_plain_concat("GPGSV,"@ + decimal(total) + ","@, decimal(number));
    lemma_plain_concat("GPGSV,"@ + decimal(total) + ","@ + decimal(number), ","@);
    lemma_plain_concat("GPGSV,"@ + decimal(total) + ","@ + decimal(number) + ","@, decimal(listed.len()));
    lemma_plain_concat("GPGSV,"@ + decimal(total) + ","@ + decimal(number) + ","@ + decimal(listed.len()), ","@);
    lemma_plain_concat("GPGSV,"@ + decimal(total) + ","@ + decimal(number) + ","@ + decimal(listed.len()) + ","@, gsv_entries(listed));
}

/// Every body among the GSA sentences can stand inside a sentence.
pub proof fn lemma_gsa_bodies_are_plain(
    satellites: Seq<Satellite>,
    count: nat,
    pdop: int,
    hdop: int,
    vdop: int,
)
    ensures
        forall|i: int|
            0 <= i < gsa_bodies(satellites, count, pdop, hdop, vdop).len() ==> all_plain(
                #[trigger] gsa_bodies(satellites, count, pdop, hdop, vdop)[i],
            ),
    decreases count,
{
    if count > 0 {
        lemma_gsa_bodies_are_plain(satellites, (count - 1) as nat, pdop, hdop, vdop);
        let before = gsa_bodies(satellites, (count - 1) as nat, pdop, hdop, vdop);
        let all = gsa_bodies(satellites, count, pdop, hdop, vdop);
        let constellation = constellation_at(count - 1);
        lemma_gsa_body_is_plain(
            constellation,
            ids_of(satellites, constellation),
            pdop,
            hdop,
            vdop,
        );
        assert forall|i: int| 0 <= i < all.len() implies all_plain(#[trigger] all[i]) by {
            if i < before.len() {
                assert(all[i] == before[i]);
            }
        }
    }
}

/// Every body among the GSV sentences can stand inside a sentence.
pub proof fn lemma_gsv_bodies_are_plain(satellites: Seq<Satellite>, total: nat, count: nat)
    ensures
        forall|i: int|
            0 <= i < gsv_bodies(satellites, total, count).len() ==> all_plain(
                #[trigger] gsv_bodies(satellites, total, count)[i],
            ),
    decreases count,
{
    if count > 0 {
        lemma_gsv_bodies_are_plain(satellites, total, (count - 1) as nat);
        let before = gsv_bodies(satellites, total, (count - 1) as nat);
        let all = gsv_bodies(satellites, total, count);
        lemma_gsv_body_is_plain(total, count, gsv_share(satellites, total, (count - 1) as nat));
        assert forall|i: int| 0 <= i < all.len() implies all_plain(#[trigger] all[i]) by {
            if i < before.len() {
                assert(all[i] == before[i]);
            }
        }
    }
}

/// Fields with a comma between each two.
pub open spec fn joined(fields: Seq<Seq<char>>) -> Seq<char>
    decreases fields.len(),
{
    if fields.len() == 0 {
        Seq::empty()
    } else if fields.len() == 1 {
        fields[0]
    } else {
        joined(fields.drop_last()) + seq![','] + fields.last()
    }
}

/// One more field goes behind the others with a comma in front.
pub proof fn lemma_joined_push(fields: Seq<Seq<char>>, field: Seq<char>)
    requires
        fields.len() > 0,
    ensures
        joined(fields.push(field)) == joined(fields) + seq![','] + field,
{
    assert(fields.push(field).drop_last() =~= fields);
}

/// The fields of a GGA sentence: the sentence type, the time, the latitude
/// and its hemisphere, the longitude and its hemisphere, the fix quality, the
/// number of satellites, the horizontal dilution of precision, the altitude
/// and its unit, the height of the geoid and its unit, and two empty fields.
pub open spec fn gga_fields(
    utc_time: Seq<char>,
    loc: LocationData,
    fix_quality: int,
    num_satellites: int,
    hdop: int,
    altitude: int,
    geoid_height: int,
) -> Seq<Seq<char>> {
    seq![
        "GPGGA"@,
        utc_time,
        loc.latitude@,
        seq![loc.ns],
        loc.longitude@,
        seq![loc.ew],
        integer(fix_quality),
        integer(num_satellites),
        tenths(hdop),
        tenths(altitude),
        "M"@,
        tenths(geoid_height),
        "M"@,
        Seq::<char>::empty(),
        Seq::<char>::empty(),
    ]
}
/// The fields of an RMC sentence: the sentence type, the time, the status,
/// the latitude and its hemisphere, the longitude and its hemisphere, the
/// speed, the course, the date, and three empty fields.
pub open spec fn rmc_fields(
    utc_time: Seq<char>,
    loc: LocationData,
    speed: int,
    course: int,
    utc_date: Seq<char>,
) -> Seq<Seq<char>> {
    seq![
        "GPRMC"@,
        utc_time,
        "A"@,
        loc.latitude@,
        seq![loc.ns],
        loc.longitude@,
        seq![loc.ew],
        tenths(speed),
        tenths(course),
        utc_date,
        Seq::<char>::empty(),
        Seq::<char>::empty(),
        Seq::<char>::empty(),
    ]
}
/// The fields of a GLL sentence: the sentence type, the latitude and its
/// hemisphere, the longitude and its hemisphere, the time, and the status.
pub open spec fn gll_fields(loc: LocationData, utc_time: Seq<char>) -> Seq<Seq<char>> {
    seq![
        "GPGLL"@,
        loc.latitude@,
        seq![loc.ns],
        loc.longitude@,
        seq![loc.ew],
        utc_time,
        "A"@,
    ]
}
/// The body of a GGA sentence is its fields with a comma between each two:
/// the latitude stands alone in the third field and its hemisphere letter in
/// the fourth, the longitude in the fifth and its letter in the sixth.
pub proof fn lemma_gga_fields(
    utc_time: Seq<char>,
    loc: LocationData,
    fix_quality: int,
    num_satellites: int,
    hdop: int,
    altitude: int,
    geoid_height: int,
)
    ensures
        gga_body(utc_time, loc, fix_quality, num_satellites, hdop, altitude, geoid_height) == joined(gga_fields(utc_time, loc, fix_quality, num_satellites, hdop, altitude, geoid_height)),
        gga_fields(utc_time, loc, fix_quality, num_satellites, hdop, altitude, geoid_height).len() == 15,
{
    reveal_strlit("GPGGA");
    reveal_strlit("GPGGA,");
    reveal_strlit(",");
    reveal_strlit("M");
    reveal_strlit(",M");
    reveal_strlit(",M,");
    reveal_strlit(",M,,");
    let f0 = seq!["GPGGA"@];
    assert(joined(f0) =~= "GPGGA"@);
    lemma_joined_push(f0, utc_time);
    let f1 = f0.push(utc_time);
    assert(joined(f1) =~= "GPGGA,"@ + utc_time);
    lemma_joined_push(f1, loc.latitude@);
    let f2 = f1.push(loc.latitude@);
    assert(joined(f2) =~= "GPGGA,"@ + utc_time + ","@ + loc.latitude@);
    lemma_joined_push(f2, seq![loc.ns]);
    let f3 = f2.push(seq![loc.ns]);
    assert(joined(f3) =~= "GPGGA,"@ + utc_time + ","@ + loc.latitude@ + seq![','] + seq![loc.ns]);
    lemma_joined_push(f3, loc.longitude@);
    let f4 = f3.push(loc.longitude@);
    assert(joined(f4) =~= "GPGGA,"@ + utc_time + ","@ + loc.latitude@ + seq![','] + seq![loc.ns] + seq![','] + loc.longitude@);
    lemma_joined_push(f4, seq![loc.ew]);
    let f5 = f4.push(seq![loc.ew]);
    assert(joined(f5) =~= "GPGGA,"@ + utc_time + ","@ + loc.latitude@ + seq![','] + seq![loc.ns] + seq![','] + loc.longitude@ + seq![','] + seq![loc.ew]);
    lemma_joined_push(f5, integer(fix_quality));
    let f6 = f5.push(integer(fix_quality));
    assert(joined(f6) =~= "GPGGA,"@ + utc_time + ","@ + loc.latitude@ + seq![','] + seq![loc.ns] + seq![','] + loc.longitude@ + seq![','] + seq![loc.ew] + seq![','] + integer(fix_quality));
    lemma_joined_push(f6, integer(num_satellites));
    let f7 = f6.push(integer(num_satellites));
    assert(joined(f7) =~= "GPGGA,"@ + utc_time + ","@ + loc.latitude@ + seq![','] + seq![loc.ns] + seq![','] + loc.longitude@ + seq![','] + seq![loc.ew] + seq![','] + integer(fix_quality) + ","@ + integer(num_satellites));
    lemma_joined_push(f7, tenths(hdop));
    let f8 = f7.push(tenths(hdop));
    assert(joined(f8) =~= "GPGGA,"@ + utc_time + ","@ + loc.latitude@ + seq![','] + seq![loc.ns] + seq![','] + loc.longitude@ + seq![','] + seq![loc.ew] + seq![','] + integer(fix_quality) + ","@ + integer(num_satellites) + ","@ + tenths(hdop));
    lemma_joined_push(f8, tenths(altitude));
    let f9 = f8.push(tenths(altitude));
    assert(joined(f9) =~= "GPGGA,"@ + utc_time + ","@ + loc.latitude@ + seq![','] + seq![loc.ns] + seq![','] + loc.longitude@ + seq![','] + seq![loc.ew] + seq![','] + integer(fix_quality) + ","@ + integer(num_satellites) + ","@ + tenths(hdop) + ","@ + tenths(altitude));
    lemma_joined_push(f9, "M"@);
    let f10 = f9.push("M"@);
    assert(joined(f10) =~= "GPGGA,"@ + utc_time + ","@ + loc.latitude@ + seq![','] + seq![loc.ns] + seq![','] + loc.longitude@ + seq![','] + seq![loc.ew] + seq![','] + integer(fix_quality) + ","@ + integer(num_satellites) + ","@ + tenths(hdop) + ","@ + tenths(altitude) + ",M"@);
    lemma_joined_push(f10, tenths(geoid_height));
    let f11 = f10.push(tenths(geoid_height));
    assert(joined(f11) =~= "GPGGA,"@ + utc_time + ","@ + loc.latitude@ + seq![','] + seq![loc.ns] + seq![','] + loc.longitude@ + seq![','] + seq![loc.ew] + seq![','] + integer(fix_quality) + ","@ + integer(num_satellites) + ","@ + tenths(hdop) + ","@ + tenths(altitude) + ",M,"@ + tenths(geoid_height));
    lemma_joined_push(f11, "M"@);
    let f12 = f11.push("M"@);
    assert(joined(f12) =~= "GPGGA,"@ + utc_time + ","@ + loc.latitude@ + seq![','] + seq![loc.ns] + seq![','] + loc.longitude@ + seq![','] + seq![loc.ew] + seq![','] + integer(fix_quality) + ","@ + integer(num_satellites) + ","@ + tenths(hdop) + ","@ + tenths(altitude) + ",M,"@ + tenths(geoid_height) + ",M"@);
    lemma_joined_push(f12, Seq::<char>::empty());
    let f13 = f12.push(Seq::<char>::empty());
    assert(joined(f13) =~= "GPGGA,"@ + utc_time + ","@ + loc.latitude@ + seq![','] + seq![loc.ns] + seq![','] + loc.longitude@ + seq![','] + seq![loc.ew] + seq![','] + integer(fix_quality) + ","@ + integer(num_satellites) + ","@ + tenths(hdop) + ","@ + tenths(altitude) + ",M,"@ + tenths(geoid_height) + ",M,"@);
    lemma_joined_push(f13, Seq::<char>::empty());
    let f14 = f13.push(Seq::<char>::empty());
    assert(joined(f14) =~= "GPGGA,"@ + utc_time + ","@ + loc.latitude@ + seq![','] + seq![loc.ns] + seq![','] + loc.longitude@ + seq![','] + seq![loc.ew] + seq![','] + integer(fix_quality) + ","@ + integer(num_satellites) + ","@ + tenths(hdop) + ","@ + tenths(altitude) + ",M,"@ + tenths(geoid_height) + ",M,,"@);
    assert(f14 =~= gga_fields(utc_time, loc, fix_quality, num_satellites, hdop, altitude, geoid_height));
}
/// The body of an RMC sentence is its fields with a comma between each two:
/// the latitude stands alone in the fourth field and its hemisphere letter
/// in the fifth, the longitude in the sixth and its letter in the seventh.
pub proof fn lemma_rmc_fields(
    utc_time: Seq<char>,
    loc: LocationData,
    speed: int,
    course: int,
    utc_date: Seq<char>,
)
    ensures
        rmc_body(utc_time, loc, speed, course, utc_date) == joined(rmc_fields(utc_time, loc, speed, course, utc_date)),
        rmc_fields(utc_time, loc, speed, course, utc_date).len() == 13,
{
    reveal_strlit("GPRMC");
    reveal_strlit("GPRMC,");
    reveal_strlit("A");
    reveal_strlit(",A");
    reveal_strlit(",A,");
    reveal_strlit(",");
    reveal_strlit(",,");
    reveal_strlit(",,,");
    let f0 = seq!["GPRMC"@];
    assert(joined(f0) =~= "GPRMC"@);
    lemma_joined_push(f0, utc_time);
    let f1 = f0.push(utc_time);
    assert(joined(f1) =~= "GPRMC,"@ + utc_time);
    lemma_joined_push(f1, "A"@);
    let f2 = f1.push("A"@);
    assert(joined(f2) =~= "GPRMC,"@ + utc_time + ",A"@);
    lemma_joined_push(f2, loc.latitude@);
    let f3 = f2.push(loc.latitude@);
    assert(joined(f3) =~= "GPRMC,"@ + utc_time + ",A,"@ + loc.latitude@);
    lemma_joined_push(f3, seq![loc.ns]);
    let f4 = f3.push(seq![loc.ns]);
    assert(joined(f4) =~= "GPRMC,"@ + utc_time + ",A,"@ + loc.latitude@ + seq![','] + seq![loc.ns]);
    lemma_joined_push(f4, loc.longitude@);
    let f5 = f4.push(loc.longitude@);
    assert(joined(f5) =~= "GPRMC,"@ + utc_time + ",A,"@ + loc.latitude@ + seq![','] + seq![loc.ns] + seq![','] + loc.longitude@);
    lemma_joined_push(f5, seq![loc.ew]);
    let f6 = f5.push(seq![loc.ew]);
    assert(joined(f6) =~= "GPRMC,"@ + utc_time + ",A,"@ + loc.latitude@ + seq![','] + seq![loc.ns] + seq![','] + loc.longitude@ + seq![','] + seq![loc.ew]);
    lemma_joined_push(f6, tenths(speed));
    let f7 = f6.push(tenths(speed));
    assert(joined(f7) =~= "GPRMC,"@ + utc_time + ",A,"@ + loc.latitude@ + seq![','] + seq![loc.ns] + seq![','] + loc.longitude@ + seq![','] + seq![loc.ew] + seq![','] + tenths(speed));
    lemma_joined_push(f7, tenths(course));
    let f8 = f7.push(tenths(course));
    assert(joined(f8) =~= "GPRMC,"@ + utc_time + ",A,"@ + loc.latitude@ + seq![','] + seq![loc.ns] + seq![','] + loc.longitude@ + seq![','] + seq![loc.ew] + seq![','] + tenths(speed) + ","@ + tenths(course));
    lemma_joined_push(f8, utc_date);
    let f9 = f8.push(utc_date);
    assert(joined(f9) =~= "GPRMC,"@ + utc_time + ",A,"@ + loc.latitude@ + seq![','] + seq![loc.ns] + seq![','] + loc.longitude@ + seq![','] + seq![loc.ew] + seq![','] + tenths(speed) + ","@ + tenths(course) + ","@ + utc_date);
    lemma_joined_push(f9, Seq::<char>::empty());
    let f10 = f9.push(Seq::<char>::empty());
    assert(joined(f10) =~= "GPRMC,"@ + utc_time + ",A,"@ + loc.latitude@ + seq![','] + seq![loc.ns] + seq![','] + loc.longitude@ + seq![','] + seq![loc.ew] + seq![','] + tenths(speed) + ","@ + tenths(course) + ","@ + utc_date + ","@);
    lemma_joined_push(f10, Seq::<char>::empty());
    let f11 = f10.push(Seq::<char>::empty());
    assert(joined(f11) =~= "GPRMC,"@ + utc_time + ",A,"@ + loc.latitude@ + seq![','] + seq![loc.ns] + seq![','] + loc.longitude@ + seq![','] + seq![loc.ew] + seq![','] + tenths(speed) + ","@ + tenths(course) + ","@ + utc_date + ",,"@);
    lemma_joined_push(f11, Seq::<char>::empty());
    let f12 = f11.push(Seq::<char>::empty());
    assert(joined(f12) =~= "GPRMC,"@ + utc_time + ",A,"@ + loc.latitude@ + seq![','] + seq![loc.ns] + seq![','] + loc.longitude@ + seq![','] + seq![loc.ew] + seq![','] + tenths(speed) + ","@ + tenths(course) + ","@ + utc_date + ",,,"@);
    assert(f12 =~= rmc_fields(utc_time, loc, speed, course, utc_date));
}
/// The body of a GLL sentence is its fields with a comma between each two:
/// the latitude stands alone in the second field and its hemisphere letter
/// in the third, the longitude in the fourth and its letter in the fifth.
pub proof fn lemma_gll_fields(loc: LocationData, utc_time: Seq<char>)
    ensures
        gll_body(loc, utc_time) == joined(gll_fields(loc, utc_time)),
        gll_fields(loc, utc_time).len() == 7,
{
    reveal_strlit("GPGLL");
    reveal_strlit("GPGLL,");
    reveal_strlit("A");
    reveal_strlit(",A");
    let f0 = seq!["GPGLL"@];
    assert(joined(f0) =~= "GPGLL"@);
    lemma_joined_push(f0, loc.latitude@);
    let f1 = f0.push(loc.latitude@);
    assert(joined(f1) =~= "GPGLL,"@ + loc.latitude@);
    lemma_joined_push(f1, seq![loc.ns]);
    let f2 = f1.push(seq![loc.ns]);
    assert(joined(f2) =~= "GPGLL,"@ + loc.latitude@ + seq![','] + seq![loc.ns]);
    lemma_joined_push(f2, loc.longitude@);
    let f3 = f2.push(loc.longitude@);
    assert(joined(f3) =~= "GPGLL,"@ + loc.latitude@ + seq![','] + seq![loc.ns] + seq![','] + loc.longitude@);
    lemma_joined_push(f3, seq![loc.ew]);
    let f4 = f3.push(seq![loc.ew]);
    assert(joined(f4) =~= "GPGLL,"@ + loc.latitude@ + seq![','] + seq![loc.ns] + seq![','] + loc.longitude@ + seq![','] + seq![loc.ew]);
    lemma_joined_push(f4, utc_time);
    let f5 = f4.push(utc_time);
    assert(joined(f5) =~= "GPGLL,"@ + loc.latitude@ + seq![','] + seq![loc.ns] + seq![','] + loc.longitude@ + seq![','] + seq![loc.ew] + seq![','] + utc_time);
    lemma_joined_push(f5, "A"@);
    let f6 = f5.push("A"@);
    assert(joined(f6) =~= "GPGLL,"@ + loc.latitude@ + seq![','] + seq![loc.ns] + seq![','] + loc.longitude@ + seq![','] + seq![loc.ew] + seq![','] + utc_time + ",A"@);
    assert(f6 =~= gll_fields(loc, utc_time));
}
} // verus!
