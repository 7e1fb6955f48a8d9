use nmea_simulator::constellation::{Constellation, Satellite};
use nmea_simulator::generator::NmeaGenerator;
use nmea_simulator::location::{format_angle, LocationData};
use nmea_simulator::random::RandomGenerator;
use nmea_simulator::sentences::{
    collect_ids, gga_sentence, gll_sentence, gsa_sentence, gsa_sentences, gsv_message_count,
    gsv_sentences, rmc_sentence,
};

fn munich() -> LocationData {
    // 48 degrees 7.0380 minutes north, 11 degrees 31 minutes east
    LocationData::from_angles(48 * 600_000 + 7 * 10_000 + 380, 11 * 600_000 + 31 * 10_000)
}

fn satellites(list: &[(Constellation, u16)]) -> Vec<Satellite> {
    list.iter().map(|(c, id)| Satellite::new(*c, *id)).collect()
}

fn checksum_holds(sentence: &str) -> bool {
    let Some(rest) = sentence.strip_prefix('$') else {
        return false;
    };
    let Some(star) = rest.find('*') else {
        return false;
    };
    let body = &rest[..star];
    let field = &rest[star + 1..];
    let mut x = 0u8;
    for b in body.as_bytes() {
        x ^= *b;
    }
    field.len() == 2
        && field.chars().all(|c| c.is_ascii_digit() || ('A'..='F').contains(&c))
        && field == format!("{:02X}", x)
}

fn angle_has_layout(text: &str, degree_width: usize) -> bool {
    let bytes = text.as_bytes();
    bytes.len() == degree_width + 7
        && bytes[degree_width + 2] == b'.'
        && bytes.iter().enumerate().all(|(i, b)| i == degree_width + 2 || b.is_ascii_digit())
        && text[degree_width..degree_width + 2].parse::<u32>().unwrap() < 60
}

#[test]
fn angles_are_zero_padded() {
    assert_eq!(format_angle(0, 2), "0000.0000");
    assert_eq!(format_angle(0, 3), "00000.0000");
    assert_eq!(format_angle(1, 2), "0000.0001");
    assert_eq!(format_angle(5 * 600_000 + 3 * 10_000 + 42, 2), "0503.0042");
    assert_eq!(format_angle(5 * 600_000 + 3 * 10_000 + 42, 3), "00503.0042");
    assert_eq!(format_angle(89 * 600_000 + 599_999, 2), "8959.9999");
    assert_eq!(format_angle(179 * 600_000 + 599_999, 3), "17959.9999");
    assert_eq!(format_angle(120 * 600_000, 2), "12000.0000");
}

#[test]
fn angles_match_the_floating_point_rendering() {
    for parts in [0u32, 1, 9_999, 10_000, 599_999, 600_000, 28_870_380, 53_999_999] {
        let degrees = (parts / 600_000) as f64;
        let minutes = (parts % 600_000) as f64 / 10_000.0;
        assert_eq!(format_angle(parts, 2), format!("{:02}{:07.4}", degrees, minutes));
        assert_eq!(format_angle(parts, 3), format!("{:03}{:07.4}", degrees, minutes));
    }
}

#[test]
fn location_from_angles() {
    let loc = munich();
    assert_eq!(loc.latitude, "4807.0380");
    assert_eq!(loc.ns, 'N');
    assert_eq!(loc.longitude, "01131.0000");
    assert_eq!(loc.ew, 'E');
}

#[test]
fn hemispheres_follow_the_sign() {
    let south_west = LocationData::from_angles(-1, -1);
    assert_eq!(south_west.latitude, "0000.0001");
    assert_eq!(south_west.ns, 'S');
    assert_eq!(south_west.longitude, "00000.0001");
    assert_eq!(south_west.ew, 'W');
    let origin = LocationData::from_angles(0, 0);
    assert_eq!((origin.ns, origin.ew), ('N', 'E'));
    let far = LocationData::from_angles(-54_000_000, -108_000_000);
    assert_eq!(far.latitude, "9000.0000");
    assert_eq!(far.longitude, "18000.0000");
    assert_eq!((far.ns, far.ew), ('S', 'W'));
    let least = LocationData::from_angles(i32::MIN, i32::MAX);
    assert_eq!(least.latitude, "357908.3648");
    assert_eq!(least.ns, 'S');
    assert_eq!(least.longitude, "357908.3647");
    assert_eq!(least.ew, 'E');
}

#[test]
fn gga_sentence_exact() {
    let text = gga_sentence("123519", &munich(), 1, 8, 9, 5454, 469);
    assert_eq!(text, "$GPGGA,123519,4807.0380,N,01131.0000,E,1,8,0.9,545.4,M,46.9,M,,*77\r\n");
    let low = LocationData::from_angles(-0, 0);
    let low = LocationData { ns: 'S', ew: 'W', ..low };
    let text = gga_sentence("000000", &low, 0, -3, 5, 0, -1000);
    assert_eq!(text, "$GPGGA,000000,0000.0000,S,00000.0000,W,0,-3,0.5,0.0,M,-100.0,M,,*4B\r\n");
}

#[test]
fn rmc_sentence_exact() {
    let text = rmc_sentence("123519", &munich(), 224, 844, "230394");
    assert_eq!(text, "$GPRMC,123519,A,4807.0380,N,01131.0000,E,22.4,84.4,230394,,,*3D\r\n");
}

#[test]
fn rmc_sentence_in_the_south_west() {
    let loc = LocationData::from_angles(-1, -1);
    let text = rmc_sentence("000000", &loc, 0, 3599, "010170");
    assert_eq!(text, "$GPRMC,000000,A,0000.0001,S,00000.0001,W,0.0,359.9,010170,,,*3F\r\n");
}

#[test]
fn gll_sentence_exact() {
    let text = gll_sentence(&munich(), "123519");
    assert_eq!(text, "$GPGLL,4807.0380,N,01131.0000,E,123519,A*25\r\n");
}

#[test]
fn gsa_sentence_fills_twelve_fields() {
    assert_eq!(
        gsa_sentence(Constellation::GPS, &vec![4, 17, 31], 25, 13, 21),
        "$GPGSA,A,3,4,17,31,,,,,,,,,,2.5,1.3,2.1*04\r\n"
    );
    assert_eq!(
        gsa_sentence(Constellation::QZSS, &vec![183, 184], 99, 99, 99),
        "$GQGSA,A,3,183,184,,,,,,,,,,,9.9,9.9,9.9*34\r\n"
    );
    assert_eq!(
        gsa_sentence(Constellation::GALILEO, &vec![], 5, 5, 5),
        "$GAGSA,A,3,,,,,,,,,,,,,,0.5,0.5,0.5*0A\r\n"
    );
    let twelve: Vec<u16> = (1..=12).collect();
    assert_eq!(
        gsa_sentence(Constellation::GPS, &twelve, 10, 10, 10),
        "$GPGSA,A,3,1,2,3,4,5,6,7,8,9,10,11,12,1.0,1.0,1.0*00\r\n"
    );
    let thirteen: Vec<u16> = (1..=13).collect();
    assert_eq!(
        gsa_sentence(Constellation::GPS, &thirteen, 10, 10, 10),
        "$GPGSA,A,3,1,2,3,4,5,6,7,8,9,10,11,12,13,1.0,1.0,1.0*2E\r\n"
    );
}

#[test]
fn gsa_sentences_go_by_constellation() {
    let sats = satellites(&[
        (Constellation::GPS, 4),
        (Constellation::GLONASS, 65),
        (Constellation::GPS, 17),
        (Constellation::BEIDOU, 101),
        (Constellation::GPS, 31),
    ]);
    assert_eq!(collect_ids(&sats, Constellation::GPS), vec![4, 17, 31]);
    assert_eq!(collect_ids(&sats, Constellation::GALILEO), Vec::<u16>::new());
    let text = gsa_sentences(&sats, 25, 13, 21);
    assert_eq!(
        text,
        "$GPGSA,A,3,4,17,31,,,,,,,,,,2.5,1.3,2.1*04\r\n\
         $GLGSA,A,3,65,,,,,,,,,,,,2.5,1.3,2.1*2B\r\n\
         $GBGSA,A,3,101,,,,,,,,,,,,2.5,1.3,2.1*16\r\n"
    );
    assert_eq!(gsa_sentences(&Vec::new(), 25, 13, 21), "");
}

#[test]
fn gsv_sentences_take_four_satellites_each() {
    let sats = satellites(&[
        (Constellation::GPS, 4),
        (Constellation::GLONASS, 65),
        (Constellation::GPS, 17),
        (Constellation::BEIDOU, 101),
        (Constellation::GPS, 31),
    ]);
    assert_eq!(
        gsv_sentences(&sats, 2),
        "$GPGSV,2,1,4,4,0,0,65,0,0,17,0,0,101,0,0,*63\r\n$GPGSV,2,2,1,31,0,0,*4A\r\n"
    );
    assert_eq!(
        gsv_sentences(&sats, 1),
        "$GPGSV,1,1,5,4,0,0,65,0,0,17,0,0,101,0,0,31,0,0,*4F\r\n"
    );
    assert_eq!(gsv_sentences(&sats, 0), "");
    let four = satellites(&[
        (Constellation::GPS, 4),
        (Constellation::GLONASS, 65),
        (Constellation::GPS, 17),
        (Constellation::BEIDOU, 101),
    ]);
    assert_eq!(
        gsv_sentences(&four, 2),
        "$GPGSV,2,1,4,4,0,0,65,0,0,17,0,0,101,0,0,*63\r\n$GPGSV,2,2,0,*65\r\n"
    );
    assert_eq!(gsv_sentences(&Vec::new(), 1), "$GPGSV,1,1,0,*65\r\n");
    let nine: Vec<Satellite> = (1..=9).map(|id| Satellite::new(Constellation::GPS, id)).collect();
    assert_eq!(
        gsv_sentences(&nine, gsv_message_count(nine.len())),
        "$GPGSV,3,1,4,1,0,0,2,0,0,3,0,0,4,0,0,*67\r\n\
         $GPGSV,3,2,4,5,0,0,6,0,0,7,0,0,8,0,0,*6C\r\n\
         $GPGSV,3,3,1,9,0,0,*71\r\n"
    );
}

#[test]
fn gsv_message_counts() {
    let expected = [0usize, 1, 1, 1, 1, 2, 2, 2, 2, 3, 3, 3, 3, 4];
    for (len, count) in expected.iter().enumerate() {
        assert_eq!(gsv_message_count(len), *count);
    }
    assert_eq!(gsv_message_count(usize::MAX), usize::MAX / 4 + 1);
}

#[test]
fn constellation_names_and_codes() {
    let all = [
        (Constellation::GPS, "GPS", "GP"),
        (Constellation::GLONASS, "GLONASS", "GL"),
        (Constellation::GALILEO, "GALILEO", "GA"),
        (Constellation::BEIDOU, "BEIDOU", "GB"),
        (Constellation::QZSS, "QZSS", "GQ"),
    ];
    assert_eq!(Constellation::len(), all.len());
    for (index, (constellation, name, code)) in all.iter().enumerate() {
        assert_eq!(constellation.to_string(), *name);
        assert_eq!(constellation.to_code(), *code);
        assert_eq!(Constellation::from_index(index), *constellation);
    }
}

#[test]
fn random_constellation_is_any_of_the_five() {
    let mut seen = [false; 5];
    for _ in 0..1000 {
        let c = Constellation::get_random();
        for index in 0..5 {
            if Constellation::from_index(index) == c {
                seen[index] = true;
            }
        }
    }
    assert_eq!(seen, [true, true, true, true, true]);
}

#[test]
fn random_satellite_numbers_fit_the_constellation() {
    let mut seen_qzss = false;
    for _ in 0..1000 {
        let sat = Satellite::new_random();
        let (first, limit) = match sat.constellation {
            Constellation::GPS => (1, 32),
            Constellation::GLONASS => (65, 96),
            Constellation::GALILEO => (1, 36),
            Constellation::BEIDOU => (101, 136),
            Constellation::QZSS => (183, 202),
        };
        assert!(first <= sat.id && sat.id < limit);
        seen_qzss = seen_qzss || sat.constellation == Constellation::QZSS;
    }
    assert!(seen_qzss);
    let sat = Satellite::new(Constellation::QZSS, 193);
    assert_eq!((sat.constellation, sat.id), (Constellation::QZSS, 193));
}

#[test]
fn random_int_stays_in_range_and_varies() {
    let mut source = RandomGenerator::new();
    let mut seen = [false; 10];
    for _ in 0..1000 {
        let v = source.random_int(-3, 7);
        assert!((-3..7).contains(&v));
        seen[(v + 3) as usize] = true;
    }
    assert!(seen.iter().all(|s| *s));
    for _ in 0..20 {
        assert_eq!(source.random_int(41, 42), 41);
        assert_eq!(source.random_int(i32::MIN, i32::MIN + 1), i32::MIN);
        assert_eq!(source.random_int(i32::MAX - 1, i32::MAX), i32::MAX - 1);
    }
}

#[test]
fn clock_texts_are_six_digits() {
    let generator = NmeaGenerator::new();
    let time = generator.get_utc_time();
    assert_eq!(time.len(), 6);
    assert!(time.bytes().all(|b| b.is_ascii_digit()));
    assert!(time[0..2].parse::<u32>().unwrap() < 24);
    assert!(time[2..4].parse::<u32>().unwrap() < 60);
    assert!(time[4..6].parse::<u32>().unwrap() <= 60);
    let date = generator.get_utc_date();
    assert_eq!(date.len(), 6);
    assert!(date.bytes().all(|b| b.is_ascii_digit()));
    assert!((1..=31).contains(&date[0..2].parse::<u32>().unwrap()));
    assert!((1..=12).contains(&date[2..4].parse::<u32>().unwrap()));
}

#[test]
fn clock_texts_agree_with_chrono() {
    let generator = NmeaGenerator::new();
    let before = chrono::Utc::now();
    let time = generator.get_utc_time();
    let date = generator.get_utc_date();
    let after = chrono::Utc::now();
    let times = [before.format("%H%M%S").to_string(), after.format("%H%M%S").to_string()];
    let dates = [before.format("%d%m%y").to_string(), after.format("%d%m%y").to_string()];
    assert!(times[0] <= time && time <= times[1] || times[1] < times[0]);
    assert!(dates.contains(&date));
}

#[test]
fn generated_location_has_the_fixed_layout() {
    let mut generator = NmeaGenerator::new();
    for _ in 0..200 {
        let loc = generator.generate_location();
        assert!(angle_has_layout(&loc.latitude, 2), "{}", loc.latitude);
        assert!(angle_has_layout(&loc.longitude, 3), "{}", loc.longitude);
        assert!(loc.latitude[0..2].parse::<u32>().unwrap() <= 90);
        assert!(loc.longitude[0..3].parse::<u32>().unwrap() <= 180);
        assert!(loc.ns == 'N' || loc.ns == 'S');
        assert!(loc.ew == 'E' || loc.ew == 'W');
    }
}

#[test]
fn generated_satellites_are_four_to_eleven() {
    let mut generator = NmeaGenerator::new();
    for _ in 0..100 {
        let sats = generator.generate_satellites();
        assert!((4..12).contains(&sats.len()));
    }
}

#[test]
fn generated_reports_name_every_talker() {
    let mut generator = NmeaGenerator::new();
    let mut seen = [false; 5];
    for _ in 0..300 {
        let report = generator.generate_sentences();
        for (index, talker) in ["$GPGSA,", "$GLGSA,", "$GAGSA,", "$GBGSA,", "$GQGSA,"].iter().enumerate() {
            seen[index] = seen[index] || report.contains(talker);
        }
    }
    assert_eq!(seen, [true; 5]);
}

#[test]
fn every_generated_sentence_carries_its_checksum() {
    let mut generator = NmeaGenerator::new();
    for _ in 0..50 {
        let report = generator.generate_sentences();
        assert!(report.ends_with("\r\n"));
        let lines: Vec<&str> = report.split_terminator("\r\n").collect();
        assert!(lines.len() >= 5);
        for line in &lines {
            assert!(checksum_holds(line), "{}", line);
        }
        assert!(lines[0].starts_with("$GPRMC,"));
        assert!(lines[1].starts_with("$GPGGA,"));
        assert!(lines[2].starts_with("$GPGLL,"));
        assert!(lines[3][3..].starts_with("GSA,A,3,"));
        assert!(lines.last().unwrap().starts_with("$GPGSV,"));
        let gsv = lines.iter().filter(|l| l.starts_with("$GPGSV,")).count();
        assert!((1..=3).contains(&gsv));
    }
}

#[test]
fn generated_sentences_share_one_position() {
    let mut generator = NmeaGenerator::new();
    let report = generator.generate_sentences();
    let lines: Vec<&str> = report.split_terminator("\r\n").collect();
    let gga: Vec<&str> = lines[1].split(',').collect();
    let rmc: Vec<&str> = lines[0].split(',').collect();
    assert!(angle_has_layout(gga[2], 2));
    assert!(angle_has_layout(gga[4], 3));
    let gll: Vec<&str> = lines[2].split(',').collect();
    assert_eq!(rmc[3..7], gga[2..6]);
    assert_eq!(gll[1..5], gga[2..6]);
    assert!(angle_has_layout(rmc[3], 2) && angle_has_layout(rmc[5], 3));
    assert!(angle_has_layout(gll[1], 2) && angle_has_layout(gll[3], 3));
    assert!(rmc[4] == "N" || rmc[4] == "S");
    assert!(rmc[6] == "E" || rmc[6] == "W");
    assert_eq!(rmc[2], "A");
    assert_eq!(gll[5], rmc[1]);
    let count: usize = gga[7].parse().unwrap();
    assert!((4..12).contains(&count));
}

#[test]
fn generated_single_sentences_are_framed() {
    let mut generator = NmeaGenerator::new();
    let loc = munich();
    let sats = generator.generate_satellites();
    let gga = generator.generate_gga(&loc, 7);
    assert!(gga.starts_with("$GPGGA,") && checksum_holds(gga.trim_end()));
    assert!(gga.contains(",4807.0380,N,01131.0000,E,"));
    let rmc = generator.generate_rmc(&loc);
    assert!(rmc.starts_with("$GPRMC,") && checksum_holds(rmc.trim_end()));
    let gll = generator.generate_gll(&loc);
    assert!(gll.starts_with("$GPGLL,4807.0380,N,01131.0000,E,") && checksum_holds(gll.trim_end()));
    assert!(rmc.contains(",A,4807.0380,N,01131.0000,E,"));
    for line in generator.generate_gsa(&sats).split_terminator("\r\n") {
        assert!(checksum_holds(line));
    }
    let gsv = generator.generate_gsv(&sats);
    assert_eq!(gsv, gsv_sentences(&sats, gsv_message_count(sats.len())));
}

#[test]
fn position_fields_stand_alone_in_every_sentence() {
    let mut generator = NmeaGenerator::new();
    for _ in 0..100 {
        let loc = generator.generate_location();
        let sentences = [
            (generator.generate_gga(&loc, 5), 2),
            (generator.generate_rmc(&loc), 3),
            (generator.generate_gll(&loc), 1),
        ];
        for (sentence, at) in sentences {
            let body = &sentence[1..sentence.find('*').unwrap()];
            let fields: Vec<&str> = body.split(',').collect();
            assert_eq!(fields[at], loc.latitude);
            assert_eq!(fields[at + 1], loc.ns.to_string());
            assert_eq!(fields[at + 2], loc.longitude);
            assert_eq!(fields[at + 3], loc.ew.to_string());
            assert!(fields[at].bytes().all(|b| b.is_ascii_digit() || b == b'.'));
            assert!(fields[at + 2].bytes().all(|b| b.is_ascii_digit() || b == b'.'));
        }
    }
}
