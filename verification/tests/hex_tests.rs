//! Hexagon coordinates, their key form, and the world seed.

use voxel_core::direction::MapDirection;
use voxel_core::hex::{HexId, HexParseError};
use voxel_core::seed::Seed;

#[test]
fn key_strings_are_canonical() {
    assert_eq!(HexId::new(0, 0).key_string(), "(0:0)");
    assert_eq!(HexId::new(3, -4).key_string(), "(3:-4)");
    assert_eq!(HexId::new(-12, 345).key_string(), "(-12:345)");
    assert_eq!(HexId::new(i32::MIN, i32::MAX).key_string(), "(-2147483648:2147483647)");
}

#[test]
fn keys_parse_back() {
    for (q, r) in [(0, 0), (1, -1), (-7, 42), (i32::MIN, i32::MAX), (250, 250)] {
        let h = HexId::new(q, r);
        let parsed = HexId::parse(&h.key_string()).unwrap();
        assert_eq!(parsed.q(), q);
        assert_eq!(parsed.r(), r);
    }
}

#[test]
fn parse_accepts_signs_and_extra_segments() {
    let h = HexId::parse("(+3:7)").unwrap();
    assert_eq!((h.q(), h.r()), (3, 7));
    // Anything after a second colon is ignored, as a lenient reader would.
    let h = HexId::parse("(1:2:3)").unwrap();
    assert_eq!((h.q(), h.r()), (1, 2));
}

#[test]
fn parse_rejects_malformed_keys() {
    assert_eq!(HexId::parse("3:4)").err(), Some(HexParseError::MissingOpen));
    assert_eq!(HexId::parse("").err(), Some(HexParseError::MissingOpen));
    assert_eq!(HexId::parse("(3:4").err(), Some(HexParseError::MissingClose));
    assert_eq!(HexId::parse("(").err(), Some(HexParseError::MissingClose));
    assert_eq!(HexId::parse("(34)").err(), Some(HexParseError::NoColon));
    assert_eq!(HexId::parse("(a:4)").err(), Some(HexParseError::BadQ));
    assert_eq!(HexId::parse("(:4)").err(), Some(HexParseError::BadQ));
    assert_eq!(HexId::parse("(-:4)").err(), Some(HexParseError::BadQ));
    assert_eq!(HexId::parse("(4:b)").err(), Some(HexParseError::BadR));
    assert_eq!(HexId::parse("(4:)").err(), Some(HexParseError::BadR));
    assert_eq!(
        HexId::parse("(99999999999:0)").err(),
        Some(HexParseError::BadQ)
    );
    assert_eq!(
        HexId::parse("(0:2147483648)").err(),
        Some(HexParseError::BadR)
    );
    // The extremes still fit.
    assert!(HexId::parse("(-2147483648:2147483647)").is_ok());
}

#[test]
fn cube_coordinate_completes_the_pair() {
    assert_eq!(HexId::new(2, -5).s(), 3);
    assert_eq!(HexId::new(0, 0).s(), 0);
}

#[test]
fn shifting_by_a_direction_steps_one_hexagon() {
    let h = HexId::new(2, 3);
    let stepped = h.shifted(MapDirection::East.direction());
    assert_eq!((stepped.q(), stepped.r()), (3, 2));
    let back = stepped.shifted(MapDirection::West.direction());
    assert_eq!((back.q(), back.r()), (2, 3));
}

#[test]
fn directions_cycle_clockwise() {
    let mut d = MapDirection::Up;
    for _ in 0..6 {
        d = d.next();
    }
    assert_eq!(d, MapDirection::Up);
    assert_eq!(MapDirection::Down.next(), MapDirection::East);
    assert_eq!(MapDirection::North.opposite(), MapDirection::South);
}

#[test]
fn seeds_are_stable_and_sensitive() {
    let a = Seed::from_string("a well-worn overworld".to_string());
    let b = Seed::from_string("a well-worn overworld".to_string());
    assert_eq!(a, b);
    let c = Seed::from_string("another seed".to_string());
    assert!(a != c);
    assert_eq!(Seed::default(), Seed(0));
}
