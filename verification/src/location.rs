//! A position as the sentences carry it: degrees and minutes in one
//! numeral, with the hemisphere beside it.

use crate::text::{
    all_plain, append_padded, decimal, is_digit, is_plain, lemma_decimal_shape,
    lemma_padded_is_digits, lemma_padded_is_plain, lemma_padded_shape, lemma_plain_concat,
    padded,
};
use vstd::prelude::*;

verus! {

/// Angles are counted in ten-thousandths of a minute of arc. This many make
/// one minute.
pub const PARTS_PER_MINUTE: u32 = 10_000;

/// This many ten-thousandths of a minute make one degree.
pub const PARTS_PER_DEGREE: u32 = 600_000;

/// A latitude and a longitude as text, each with its hemisphere.
pub struct LocationData {
    pub latitude: String,
    pub ns: char,
    pub longitude: String,
    pub ew: char,
}

/// The size of an angle, whichever its sign.
pub open spec fn magnitude(angle: int) -> nat {
    if angle < 0 {
        (-angle) as nat
    } else {
        angle as nat
    }
}

/// An angle of `parts` ten-thousandths of a minute: whole degrees in at
/// least `degree_width` digits, whole minutes in two digits, a point, and
/// the ten-thousandths of a minute in four digits.
pub open spec fn angle_text(parts: nat, degree_width: nat) -> Seq<char> {
    padded(parts / 600_000, degree_width) + padded(parts % 600_000 / 10_000, 2) + seq!['.']
        + padded(parts % 600_000 % 10_000, 4)
}

/// The hemisphere letter of a latitude.
pub open spec fn north_south(latitude: int) -> char {
    if latitude >= 0 {
        'N'
    } else {
        'S'
    }
}

/// The hemisphere letter of a longitude.
pub open spec fn east_west(longitude: int) -> char {
    if longitude >= 0 {
        'E'
    } else {
        'W'
    }
}

/// Whether `location` shows the position at the given latitude and
/// longitude, both in ten-thousandths of a minute and positive to the north
/// and to the east.
pub open spec fn shows(location: LocationData, latitude: int, longitude: int) -> bool {
    &&& location.latitude@ == angle_text(magnitude(latitude), 2)
    &&& location.ns == north_south(latitude)
    &&& location.longitude@ == angle_text(magnitude(longitude), 3)
    &&& location.ew == east_west(longitude)
}

/// The text of an angle of `parts` ten-thousandths of a minute.
pub fn format_angle(parts: u32, degree_width: usize) -> (text: String)
    ensures
        text@ == angle_text(parts as nat, degree_width as nat),
{
    let degrees = parts / PARTS_PER_DEGREE;
    let rest = parts % PARTS_PER_DEGREE;
    let mut text = String::new();
    append_padded(&mut text, degrees, degree_width);
    append_padded(&mut text, rest / PARTS_PER_MINUTE, 2);
    text.push('.');
    append_padded(&mut text, rest % PARTS_PER_MINUTE, 4);
    assert(text@ =~= angle_text(parts as nat, degree_width as nat));
    text
}

impl LocationData {
    /// The position at the given latitude and longitude, both in
    /// ten-thousandths of a minute, positive to the north and to the east.
    pub fn from_angles(latitude: i32, longitude: i32) -> (location: LocationData)
        ensures
            shows(location, latitude as int, longitude as int),
    {
        let ns = if latitude >= 0 {
            'N'
        } else {
            'S'
        };
        let ew = if longitude >= 0 {
            'E'
        } else {
            'W'
        };
        let wide_latitude: i64 = latitude as i64;
        let wide_longitude: i64 = longitude as i64;
        let latitude_parts: u32 = if wide_latitude < 0 {
            (-wide_latitude) as u32
        } else {
            wide_latitude as u32
        };
        let longitude_parts: u32 = if wide_longitude < 0 {
            (-wide_longitude) as u32
        } else {
            wide_longitude as u32
        };
        LocationData {
            latitude: format_angle(latitude_parts, 2),
            ns,
            longitude: format_angle(longitude_parts, 3),
            ew,
        }
    }
}

/// The text of an angle below `10^degree_width` degrees has a fixed layout:
/// `degree_width` digits of degrees, two digits of minutes, a point, and
/// exactly four digits after it.
pub proof fn lemma_angle_layout(parts: nat, degree_width: nat)
    requires
        decimal(parts / 600_000).len() <= degree_width,
    ensures
        angle_text(parts, degree_width).len() == degree_width as int + 7,
        angle_text(parts, degree_width)[degree_width as int + 2] == '.',
        forall|i: int|
            0 <= i < degree_width as int + 7 && i != degree_width as int + 2 ==> is_digit(
                #[trigger] angle_text(parts, degree_width)[i],
            ),
        angle_text(parts, degree_width).subrange(0, degree_width as int) == padded(
            parts / 600_000,
            degree_width,
        ),
        angle_text(parts, degree_width).subrange(degree_width as int, degree_width as int + 2) == padded(
            parts % 600_000 / 10_000,
            2,
        ),
        angle_text(parts, degree_width).subrange(degree_width as int + 3, degree_width as int + 7) == padded(
            parts % 600_000 % 10_000,
            4,
        ),
{
    let degrees = padded(parts / 600_000, degree_width);
    let minutes = padded(parts % 600_000 / 10_000, 2);
    let fraction = padded(parts % 600_000 % 10_000, 4);
    let text = angle_text(parts, degree_width);
    lemma_decimal_shape(parts % 600_000 / 10_000);
    lemma_decimal_shape(parts % 600_000 % 10_000);
    lemma_padded_shape(parts / 600_000, degree_width);
    lemma_padded_shape(parts % 600_000 / 10_000, 2);
    lemma_padded_shape(parts % 600_000 % 10_000, 4);
    assert(text.len() == degree_width as int + 7);
    assert forall|i: int| 0 <= i < degree_width as int + 7 && i != degree_width as int + 2 implies is_digit(
        #[trigger] text[i],
    ) by {
        if i < degree_width {
            assert(text[i] == degrees[i]);
        } else if i < degree_width as int + 2 {
            assert(text[i] == minutes[i - degree_width as int]);
        } else {
            assert(text[i] == fraction[i - degree_width as int - 3]);
        }
    }
    assert(text.subrange(0, degree_width as int) =~= degrees);
    assert(text.subrange(degree_width as int, degree_width as int + 2) =~= minutes);
    assert(text.subrange(degree_width as int + 3, degree_width as int + 7) =~= fraction);
}

/// Every latitude up to 90 degrees and every longitude up to 180 degrees is
/// shown in the fixed layout: two digits of degrees for the latitude and
/// three for the longitude, zeros in front where needed, then two digits of
/// minutes, a point and four more digits; `N` and `E` stand for angles that
/// are not negative, `S` and `W` for negative ones.
pub proof fn lemma_location_layout(location: LocationData, latitude: int, longitude: int)
    requires
        shows(location, latitude, longitude),
        -90 * 600_000 <= latitude <= 90 * 600_000,
        -180 * 600_000 <= longitude <= 180 * 600_000,
    ensures
        location.latitude@.len() == 9,
        location.latitude@[4] == '.',
        forall|i: int| 0 <= i < 9 && i != 4 ==> is_digit(#[trigger] location.latitude@[i]),
        location.longitude@.len() == 10,
        location.longitude@[5] == '.',
        forall|i: int| 0 <= i < 10 && i != 5 ==> is_digit(#[trigger] location.longitude@[i]),
        location.ns == 'N' || location.ns == 'S',
        location.ew == 'E' || location.ew == 'W',
        (location.ns == 'N') == (latitude >= 0),
        (location.ew == 'E') == (longitude >= 0),
{
    lemma_decimal_shape(magnitude(latitude) / 600_000);
    lemma_decimal_shape(magnitude(longitude) / 600_000);
    lemma_angle_layout(magnitude(latitude), 2);
    lemma_angle_layout(magnitude(longitude), 3);
}

/// Whether all of a location can stand inside a sentence.
pub open spec fn is_plain_location(location: LocationData) -> bool {
    &&& all_plain(location.latitude@)
    &&& is_plain(location.ns)
    &&& all_plain(location.longitude@)
    &&& is_plain(location.ew)
}

/// The text of an angle can stand inside a sentence.
pub proof fn lemma_angle_is_plain(parts: nat, degree_width: nat)
    ensures
        all_plain(angle_text(parts, degree_width)),
{
    let degrees = padded(parts / 600_000, degree_width);
    let minutes = padded(parts % 600_000 / 10_000, 2);
    let fraction = padded(parts % 600_000 % 10_000, 4);
    lemma_padded_is_plain(parts / 600_000, degree_width);
    lemma_padded_is_plain(parts % 600_000 / 10_000, 2);
    lemma_padded_is_plain(parts % 600_000 % 10_000, 4);
    lemma_plain_concat(degrees, minutes);
    lemma_plain_concat(degrees + minutes, seq!['.']);
    lemma_plain_concat(degrees + minutes + seq!['.'], fraction);
}

/// A location that shows a position can stand inside a sentence.
pub proof fn lemma_shown_location_is_plain(location: LocationData, latitude: int, longitude: int)
    requires
        shows(location, latitude, longitude),
    ensures
        is_plain_location(location),
{
    lemma_angle_is_plain(magnitude(latitude), 2);
    lemma_angle_is_plain(magnitude(longitude), 3);
}

/// Whether `text` is made of digits and points only.
pub open spec fn is_numeral_text(text: Seq<char>) -> bool {
    forall|i: int| 0 <= i < text.len() ==> is_digit(#[trigger] text[i]) || text[i] == '.'
}

/// The text of an angle is made of digits and one point: it holds no
/// letter and no comma.
pub proof fn lemma_angle_is_numeral_text(parts: nat, degree_width: nat)
    ensures
        is_numeral_text(angle_text(parts, degree_width)),
{
    let degrees = padded(parts / 600_000, degree_width);
    let minutes = padded(parts % 600_000 / 10_000, 2);
    let fraction = padded(parts % 600_000 % 10_000, 4);
    let text = angle_text(parts, degree_width);
    lemma_padded_is_digits(parts / 600_000, degree_width);
    lemma_padded_is_digits(parts % 600_000 / 10_000, 2);
    lemma_padded_is_digits(parts % 600_000 % 10_000, 4);
    assert forall|i: int| 0 <= i < text.len() implies is_digit(#[trigger] text[i]) || text[i]
        == '.' by {
        if i < degrees.len() {
            assert(text[i] == degrees[i]);
        } else if i < degrees.len() + minutes.len() {
            assert(text[i] == minutes[i - degrees.len()]);
        } else if i == degrees.len() + minutes.len() {
            assert(text[i] == '.');
        } else {
            assert(text[i] == fraction[i - degrees.len() - minutes.len() - 1]);
        }
    }
}

/// In a location that shows a position, latitude and longitude are made of
/// digits and one point each, and the hemisphere letters follow the signs.
pub proof fn lemma_shown_location_is_numeral(location: LocationData, latitude: int, longitude: int)
    requires
        shows(location, latitude, longitude),
    ensures
        is_numeral_text(location.latitude@),
        is_numeral_text(location.longitude@),
        location.ns == north_south(latitude),
        location.ew == east_west(longitude),
{
    lemma_angle_is_numeral_text(magnitude(latitude), 2);
    lemma_angle_is_numeral_text(magnitude(longitude), 3);
}

} // verus!
