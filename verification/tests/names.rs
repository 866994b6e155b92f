use watchlog::names::check_safe_name;
use watchlog::names::name_from_samples;
use watchlog::names::random_file_name;
use watchlog::names::NAME_LEN;

#[test]
fn name_length_is_ten() {
    assert_eq!(NAME_LEN, 10);
}

#[test]
fn random_name_has_ten_alphanumeric_characters() {
    for _ in 0..200 {
        let name = random_file_name();
        assert_eq!(name.chars().count(), 10);
        assert_eq!(name.len(), 10);
        assert!(name.chars().all(|c| c.is_ascii_alphanumeric()));
    }
}

#[test]
fn random_name_is_a_safe_name() {
    for _ in 0..50 {
        assert!(check_safe_name(&random_file_name()));
    }
}

#[test]
fn random_names_vary() {
    let first = random_file_name();
    let mut differs = false;
    for _ in 0..20 {
        if random_file_name() != first {
            differs = true;
        }
    }
    assert!(differs);
}

#[test]
fn samples_spell_their_characters() {
    assert_eq!(name_from_samples(b"abc1234567"), "abc1234567");
    assert_eq!(name_from_samples(b"Zz09"), "Zz09");
    assert_eq!(name_from_samples(&[0x41, 0x62, 0x30]), "Ab0");
}

#[test]
fn no_samples_spell_the_empty_name() {
    assert_eq!(name_from_samples(&[]), "");
}

#[test]
fn samples_above_ascii_spell_one_character_each() {
    let name = name_from_samples(&[0xe9, 0x41]);
    assert_eq!(name.chars().count(), 2);
    assert_eq!(name, "\u{e9}A");
}

#[test]
fn safe_names_are_letters_and_digits() {
    assert!(check_safe_name("abc1234567"));
    assert!(check_safe_name("a"));
    assert!(check_safe_name("Z"));
    assert!(check_safe_name("0"));
    assert!(check_safe_name("9"));
    assert!(check_safe_name("AZaz09"));
    assert!(check_safe_name("aVeryLongNameOfLettersAndDigits0123456789"));
}

#[test]
fn empty_name_is_not_safe() {
    assert!(!check_safe_name(""));
}

#[test]
fn names_with_other_characters_are_not_safe() {
    assert!(!check_safe_name("a/b"));
    assert!(!check_safe_name("../x"));
    assert!(!check_safe_name("."));
    assert!(!check_safe_name(".."));
    assert!(!check_safe_name("a b"));
    assert!(!check_safe_name("notes.txt"));
    assert!(!check_safe_name("a\\b"));
    assert!(!check_safe_name("a\0"));
    assert!(!check_safe_name("abc_123"));
    assert!(!check_safe_name("abc-123"));
}

#[test]
fn characters_next_to_the_alphabet_are_not_safe() {
    assert!(!check_safe_name("/"));
    assert!(!check_safe_name(":"));
    assert!(!check_safe_name("@"));
    assert!(!check_safe_name("["));
    assert!(!check_safe_name("`"));
    assert!(!check_safe_name("{"));
}

#[test]
fn names_outside_ascii_are_not_safe() {
    assert!(!check_safe_name("caf\u{e9}"));
    assert!(!check_safe_name("\u{4e2d}\u{6587}"));
    assert!(!check_safe_name("abc\u{ff11}"));
}
