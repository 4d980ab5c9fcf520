use std::collections::HashSet;
use std::str::FromStr;

use ubuntu_version::{Codename, CodenameParseError};

const ALL: [Codename; 5] =
    [Codename::Bionic, Codename::Cosmic, Codename::Disco, Codename::Eoan, Codename::Focal];

#[test]
fn names_are_the_lowercase_literals() {
    assert_eq!(Codename::Bionic.as_str(), "bionic");
    assert_eq!(Codename::Cosmic.as_str(), "cosmic");
    assert_eq!(Codename::Disco.as_str(), "disco");
    assert_eq!(Codename::Eoan.as_str(), "eoan");
    assert_eq!(Codename::Focal.as_str(), "focal");
}

#[test]
fn to_string_agrees_with_as_str() {
    for codename in ALL {
        assert_eq!(codename.to_string(), String::from(codename.as_str()));
    }
    assert_eq!(Codename::Eoan.to_string(), "eoan".to_string());
}

#[test]
fn static_str_from_codename() {
    assert_eq!(<&'static str>::from(Codename::Bionic), "bionic");
    assert_eq!(<&'static str>::from(Codename::Cosmic), "cosmic");
    assert_eq!(<&'static str>::from(Codename::Disco), "disco");
    assert_eq!(<&'static str>::from(Codename::Eoan), "eoan");
    let text: &'static str = Codename::Focal.into();
    assert_eq!(text, "focal");
}

#[test]
fn parse_accepts_the_five_names() {
    assert_eq!(Codename::parse("bionic"), Ok(Codename::Bionic));
    assert_eq!(Codename::parse("cosmic"), Ok(Codename::Cosmic));
    assert_eq!(Codename::parse("disco"), Ok(Codename::Disco));
    assert_eq!(Codename::parse("eoan"), Ok(Codename::Eoan));
    assert_eq!(Codename::parse("focal"), Ok(Codename::Focal));
}

#[test]
fn from_str_accepts_the_five_names() {
    assert_eq!("bionic".parse::<Codename>(), Ok(Codename::Bionic));
    assert_eq!("cosmic".parse::<Codename>(), Ok(Codename::Cosmic));
    assert_eq!(Codename::from_str("disco"), Ok(Codename::Disco));
    assert_eq!(Codename::from_str("eoan"), Ok(Codename::Eoan));
    assert_eq!("focal".parse::<Codename>(), Ok(Codename::Focal));
}

#[test]
fn name_round_trips_through_parse() {
    for codename in ALL {
        assert_eq!(Codename::parse(codename.as_str()), Ok(codename));
        assert_eq!(codename.to_string().parse::<Codename>(), Ok(codename));
    }
}

#[test]
fn parse_rejects_unknown_release() {
    assert_eq!(Codename::parse("xenial"), Err(CodenameParseError::NotFound));
    assert_eq!("xenial".parse::<Codename>(), Err(CodenameParseError::NotFound));
}

#[test]
fn parse_rejects_wrong_case() {
    assert_eq!(Codename::parse("Bionic"), Err(CodenameParseError::NotFound));
    assert_eq!(Codename::parse("BIONIC"), Err(CodenameParseError::NotFound));
    assert_eq!(Codename::parse("focaL"), Err(CodenameParseError::NotFound));
}

#[test]
fn parse_rejects_empty_string() {
    assert_eq!(Codename::parse(""), Err(CodenameParseError::NotFound));
}

#[test]
fn parse_does_not_trim_or_match_partially() {
    assert_eq!(Codename::parse(" bionic"), Err(CodenameParseError::NotFound));
    assert_eq!(Codename::parse("bionic "), Err(CodenameParseError::NotFound));
    assert_eq!(Codename::parse("bionic\n"), Err(CodenameParseError::NotFound));
    assert_eq!(Codename::parse("bioni"), Err(CodenameParseError::NotFound));
    assert_eq!(Codename::parse("bionicc"), Err(CodenameParseError::NotFound));
    assert_eq!(Codename::parse("eoa"), Err(CodenameParseError::NotFound));
    assert_eq!(Codename::parse("disc0"), Err(CodenameParseError::NotFound));
    assert_eq!(Codename::parse("cosmik"), Err(CodenameParseError::NotFound));
}

#[test]
fn parse_rejects_text_outside_ascii() {
    assert_eq!(Codename::parse("bi\u{f6}nic"), Err(CodenameParseError::NotFound));
    assert_eq!(Codename::parse("\u{444}ocal"), Err(CodenameParseError::NotFound));
    assert_eq!(Codename::parse("eoan\u{0}"), Err(CodenameParseError::NotFound));
}

#[test]
fn release_dates_match_the_table() {
    assert_eq!(Codename::Bionic.release_date(), (2018, 4, 26));
    assert_eq!(Codename::Cosmic.release_date(), (2018, 10, 18));
    assert_eq!(Codename::Disco.release_date(), (2019, 4, 18));
    assert_eq!(Codename::Eoan.release_date(), (2019, 10, 17));
}

#[test]
fn focal_release_day_is_the_placeholder() {
    assert_eq!(Codename::Focal.release_date(), (2020, 4, 0));
}

#[test]
fn release_timestamps_match_the_table() {
    assert_eq!(Codename::Bionic.release_timestamp(), 1_524_700_800);
    assert_eq!(Codename::Cosmic.release_timestamp(), 1_539_820_800);
    assert_eq!(Codename::Disco.release_timestamp(), 1_555_545_600);
    assert_eq!(Codename::Eoan.release_timestamp(), 1_571_270_400);
    assert_eq!(Codename::Focal.release_timestamp(), 1_585_699_200);
}

#[test]
fn release_timestamps_fall_on_utc_midnight() {
    for codename in ALL {
        assert_eq!(codename.release_timestamp() % 86_400, 0);
    }
}

#[test]
fn releases_are_in_order_of_time() {
    for pair in ALL.windows(2) {
        assert!(pair[0].release_timestamp() < pair[1].release_timestamp());
    }
}

#[test]
fn codenames_are_copy_eq_and_hash() {
    let first = Codename::Disco;
    let second = first;
    assert_eq!(first, second);
    assert_ne!(Codename::Disco, Codename::Eoan);

    let mut seen = HashSet::new();
    for codename in ALL {
        assert!(seen.insert(codename));
    }
    assert!(!seen.insert(Codename::Bionic));
    assert_eq!(seen.len(), 5);
}
