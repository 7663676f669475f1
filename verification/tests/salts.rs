use oxine::salt::{push_salt, salt_of, SaltExt};
use rand::rngs::StdRng;
use rand::SeedableRng;
use std::collections::VecDeque;

#[test]
fn salts_are_base_sixty_two_numerals() {
    assert_eq!(salt_of(0), "0");
    assert_eq!(salt_of(9), "9");
    assert_eq!(salt_of(10), "A");
    assert_eq!(salt_of(35), "Z");
    assert_eq!(salt_of(36), "a");
    assert_eq!(salt_of(61), "z");
    assert_eq!(salt_of(62), "10");
    assert_eq!(salt_of(1337), "LZ");
    assert_eq!(salt_of(62 * 62 * 62 - 1), "zzz");
    assert_eq!(salt_of(u128::MAX), "7n42DGM5Tflk9n8mt7Fhc7");
}

#[test]
fn generated_salts_are_numerals() {
    let mut rng = StdRng::seed_from_u64(7);
    let first = rng.salt();
    let second = rng.salt();
    assert_ne!(first, second);
    for salt in [first, second] {
        assert!(!salt.is_empty());
        assert!(salt.len() <= 22);
        assert!(salt.chars().all(|glyph| glyph.is_ascii_alphanumeric()));
        assert!(salt == "0" || !salt.starts_with('0'));
    }
}

#[test]
fn history_keeps_the_most_recent_salts() {
    let mut history: VecDeque<String> = VecDeque::new();
    for number in 0..10u128 {
        push_salt(&mut history, salt_of(number), 3);
        assert!(history.len() <= 3);
    }
    assert_eq!(history, VecDeque::from(vec!["7".to_string(), "8".to_string(), "9".to_string()]));
}

#[test]
fn history_grows_up_to_its_capacity() {
    let mut history: VecDeque<String> = VecDeque::new();
    push_salt(&mut history, "a".to_string(), 2);
    assert_eq!(history, VecDeque::from(vec!["a".to_string()]));
    push_salt(&mut history, "b".to_string(), 2);
    assert_eq!(history, VecDeque::from(vec!["a".to_string(), "b".to_string()]));
    push_salt(&mut history, "c".to_string(), 2);
    assert_eq!(history, VecDeque::from(vec!["b".to_string(), "c".to_string()]));
}

#[test]
fn history_of_no_capacity_stays_empty() {
    let mut history: VecDeque<String> = VecDeque::new();
    for number in 0..5u128 {
        push_salt(&mut history, salt_of(number), 0);
        assert!(history.is_empty());
    }
}

#[test]
fn history_shrinks_to_a_smaller_capacity() {
    let mut history: VecDeque<String> =
        VecDeque::from(vec!["a".to_string(), "b".to_string(), "c".to_string(), "d".to_string()]);
    push_salt(&mut history, "e".to_string(), 2);
    assert_eq!(history, VecDeque::from(vec!["d".to_string(), "e".to_string()]));
}
