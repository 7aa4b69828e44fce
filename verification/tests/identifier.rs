use zuuid::identifier::{choose_layout, generate_uuid, Identifier, Layout};
use zuuid::version::UuidVersion;

const SAMPLE: [u8; 16] = [
    0xa1, 0xa2, 0xa3, 0xa4, 0xb1, 0xb2, 0xc1, 0xc2, 0xd1, 0xd2, 0xd3, 0xd4, 0xd5, 0xd6, 0xd7, 0xd8,
];

const DIGITS: [u8; 16] = [
    0x01, 0x23, 0x45, 0x67, 0x89, 0xab, 0xcd, 0xef, 0xfe, 0xdc, 0xba, 0x98, 0x76, 0x54, 0x32, 0x10,
];

#[test]
fn hyphenated_text_of_known_bytes() {
    let id = Identifier::from_bytes(SAMPLE);
    assert_eq!(id.render(Layout::Hyphenated, false), "a1a2a3a4-b1b2-c1c2-d1d2-d3d4d5d6d7d8");
    let id = Identifier::from_bytes(DIGITS);
    assert_eq!(id.render(Layout::Hyphenated, false), "01234567-89ab-cdef-fedc-ba9876543210");
}

#[test]
fn compact_text_of_known_bytes() {
    let id = Identifier::from_bytes(SAMPLE);
    assert_eq!(id.render(Layout::Compact, false), "a1a2a3a4b1b2c1c2d1d2d3d4d5d6d7d8");
    let id = Identifier::from_bytes(DIGITS);
    assert_eq!(id.render(Layout::Compact, false), "0123456789abcdeffedcba9876543210");
}

#[test]
fn upper_case_text_of_known_bytes() {
    let id = Identifier::from_bytes(SAMPLE);
    assert_eq!(id.render(Layout::Hyphenated, true), "A1A2A3A4-B1B2-C1C2-D1D2-D3D4D5D6D7D8");
    assert_eq!(id.render(Layout::Compact, true), "A1A2A3A4B1B2C1C2D1D2D3D4D5D6D7D8");
    let id = Identifier::from_bytes(DIGITS);
    assert_eq!(id.render(Layout::Hyphenated, true), "01234567-89AB-CDEF-FEDC-BA9876543210");
}

#[test]
fn text_of_the_extreme_bytes() {
    let id = Identifier::from_bytes([0x00; 16]);
    assert_eq!(id.render(Layout::Hyphenated, false), "00000000-0000-0000-0000-000000000000");
    assert_eq!(id.render(Layout::Compact, true), "00000000000000000000000000000000");
    let id = Identifier::from_bytes([0xff; 16]);
    assert_eq!(id.render(Layout::Hyphenated, false), "ffffffff-ffff-ffff-ffff-ffffffffffff");
    assert_eq!(id.render(Layout::Compact, true), "FFFFFFFFFFFFFFFFFFFFFFFFFFFFFFFF");
}

#[test]
fn bytes_are_kept() {
    let id = Identifier::from_bytes(SAMPLE);
    assert_eq!(id.as_bytes(), &SAMPLE);
    assert_eq!(id, Identifier::from_bytes(SAMPLE));
    assert_ne!(id, Identifier::from_bytes(DIGITS));
}

#[test]
fn layout_follows_the_flags() {
    for prefer_full in [false, true] {
        assert_eq!(choose_layout(false, false, prefer_full), Layout::Hyphenated);
        assert_eq!(choose_layout(false, true, prefer_full), Layout::Hyphenated);
        assert_eq!(choose_layout(true, false, prefer_full), Layout::Compact);
    }
    assert_eq!(choose_layout(true, true, true), Layout::Hyphenated);
    assert_eq!(choose_layout(true, true, false), Layout::Compact);
}

#[test]
fn generated_identifiers_carry_their_version_and_variant() {
    for _ in 0..50 {
        let id = Identifier::generate(UuidVersion::V4);
        assert_eq!(id.as_bytes()[6] >> 4, 4);
        assert_eq!(id.as_bytes()[8] >> 6, 2);
        let id = Identifier::generate(UuidVersion::V7);
        assert_eq!(id.as_bytes()[6] >> 4, 7);
        assert_eq!(id.as_bytes()[8] >> 6, 2);
    }
}

#[test]
fn generated_text_shows_the_version() {
    for _ in 0..50 {
        let text = generate_uuid(UuidVersion::V4, false, false, false, false);
        assert_eq!(text.as_bytes()[14], b'4');
        assert!(b"89ab".contains(&text.as_bytes()[19]));
        let text = generate_uuid(UuidVersion::V7, true, true, false, false);
        assert_eq!(text.as_bytes()[12], b'7');
        assert!(b"89AB".contains(&text.as_bytes()[16]));
    }
}

fn is_hyphenated(text: &str, uppercase: bool) -> bool {
    text.len() == 36
        && text.chars().enumerate().all(|(i, c)| {
            if i == 8 || i == 13 || i == 18 || i == 23 {
                c == '-'
            } else {
                c.is_ascii_digit() || if uppercase { ('A'..='F').contains(&c) } else { ('a'..='f').contains(&c) }
            }
        })
}

fn is_compact(text: &str, uppercase: bool) -> bool {
    text.len() == 32
        && text.chars().all(|c| {
            c.is_ascii_digit() || if uppercase { ('A'..='F').contains(&c) } else { ('a'..='f').contains(&c) }
        })
}

#[test]
fn every_flag_combination_gives_the_form_it_asks_for() {
    for version in [UuidVersion::V4, UuidVersion::V7] {
        for uppercase in [false, true] {
            for simple in [false, true] {
                for full in [false, true] {
                    for prefer_full in [false, true] {
                        let text = generate_uuid(version, uppercase, simple, full, prefer_full);
                        let compact = simple && (!full || !prefer_full);
                        if compact {
                            assert!(is_compact(&text, uppercase), "{}", text);
                        } else {
                            assert!(is_hyphenated(&text, uppercase), "{}", text);
                        }
                        if uppercase {
                            assert!(!text.chars().any(|c| c.is_lowercase()));
                        } else {
                            assert!(!text.chars().any(|c| c.is_uppercase()));
                        }
                    }
                }
            }
        }
    }
}

#[test]
fn precedence_is_ignored_without_both_flags() {
    let id = Identifier::from_bytes(SAMPLE);
    for uppercase in [false, true] {
        for (simple, full) in [(false, false), (false, true), (true, false)] {
            assert_eq!(
                id.render(choose_layout(simple, full, true), uppercase),
                id.render(choose_layout(simple, full, false), uppercase)
            );
        }
    }
}
