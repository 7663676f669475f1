use oxine::networking::{IncomingPacketType, OutgoingPacketType, WireError};
use oxine::text::{decode_bytes, encode_text, load_field, store_field, PAD, TEXT_WIDTH};

fn field(text: &str) -> Vec<u8> {
    let mut bytes = Vec::new();
    assert!(store_field(text, &mut bytes));
    bytes
}

#[test]
fn text_field_is_always_sixty_four_bytes() {
    assert_eq!(TEXT_WIDTH, 64);
    assert_eq!(PAD, b' ');
    for text in ["", "a", "Alice", &"x".repeat(64), &"y".repeat(65), &"z".repeat(500)] {
        assert_eq!(field(text).len(), 64);
    }
}

#[test]
fn text_field_pads_with_spaces() {
    let bytes = field("Alice");
    assert_eq!(&bytes[..5], b"Alice");
    assert!(bytes[5..].iter().all(|&byte| byte == b' '));
}

#[test]
fn empty_text_is_all_padding() {
    assert_eq!(field(""), vec![b' '; 64]);
    assert_eq!(load_field(&[b' '; 64]), "");
}

#[test]
fn maximal_text_fills_the_field() {
    let text = "0123456789abcdef".repeat(4);
    assert_eq!(field(&text), text.as_bytes().to_vec());
    assert_eq!(load_field(text.as_bytes()), text);
}

#[test]
fn overlong_text_is_clipped_not_rejected() {
    let text = format!("{}{}", "a".repeat(64), "bcdef");
    assert_eq!(field(&text), vec![b'a'; 64]);
    let mixed: String = (0..100).map(|index| (b'A' + (index % 26) as u8) as char).collect();
    assert_eq!(field(&mixed), mixed.as_bytes()[..64].to_vec());
}

#[test]
fn text_round_trips_without_trailing_spaces() {
    for text in ["Alice", "hello world", "  lead", "a b c", "!@#$%^&*()", "~"] {
        assert_eq!(load_field(&field(text)), text);
    }
    assert_eq!(load_field(&field("trail   ")), "trail");
    assert_eq!(load_field(&field("   ")), "");
}

#[test]
fn extended_glyphs_go_through_the_code_page() {
    assert_eq!(encode_text("\u{263B}"), Some(vec![0x02]));
    assert_eq!(encode_text("\u{00C7}a"), Some(vec![0x80, b'a']));
    assert_eq!(decode_bytes(&[0x02]), "\u{263B}");
    assert_eq!(decode_bytes(&[0x41, 0x80, 0x7f]), "A\u{00C7}\u{2302}");
    assert_eq!(load_field(&field("caf\u{00E9}")), "caf\u{00E9}");
}

#[test]
fn plain_bytes_stand_for_themselves() {
    for byte in 0x20u8..0x7f {
        let text = (byte as char).to_string();
        assert_eq!(encode_text(&text), Some(vec![byte]));
        assert_eq!(decode_bytes(&[byte]), text);
    }
    assert_eq!(encode_text("\0"), Some(vec![0]));
    assert_eq!(decode_bytes(&[0]), "\0");
}

#[test]
fn decoding_gives_one_character_per_byte() {
    let bytes: Vec<u8> = (0..=255).collect();
    assert_eq!(decode_bytes(&bytes).chars().count(), 256);
}

#[test]
fn unrepresentable_text_is_invalid_data() {
    assert_eq!(encode_text("\u{017C}"), None);
    let mut bytes = vec![1u8, 2, 3];
    assert!(!store_field("z\u{017C}", &mut bytes));
    assert_eq!(bytes, vec![1, 2, 3]);
    let mut bytes = vec![1u8];
    assert_eq!("\u{4E2D}".to_string().store(&mut bytes), Err(WireError::InvalidData));
    assert_eq!(bytes, vec![1]);
}

#[test]
fn variant_glyphs_come_back_as_the_main_glyph() {
    // The capital delta shares its byte with the house.
    assert_eq!(encode_text("\u{0394}"), Some(vec![0x7f]));
    assert_eq!(load_field(&field("\u{0394}")), "\u{2302}");
}

#[test]
fn only_spaces_are_trimmed() {
    let mut bytes = vec![b' '; 64];
    bytes[0] = b'a';
    bytes[1] = 0xff;
    assert_eq!(load_field(&bytes), "a\u{00A0}");
    bytes[2] = 0x00;
    assert_eq!(load_field(&bytes), "a\u{00A0}\0");
}

#[test]
fn string_load_takes_sixty_four_bytes() {
    let mut bytes = field("Bob");
    bytes.extend_from_slice(&[1, 2, 3]);
    assert_eq!(String::load(&bytes), Ok(("Bob".to_string(), 64)));
    assert_eq!(String::load(&bytes[..63]), Err(WireError::UnexpectedEof));
}

#[test]
fn string_store_appends_the_field() {
    let mut bytes = vec![7u8];
    "Hi".to_string().store(&mut bytes).unwrap();
    assert_eq!(bytes.len(), 65);
    assert_eq!(&bytes[..3], &[7, b'H', b'i']);
    assert!(bytes[3..].iter().all(|&byte| byte == b' '));
}
