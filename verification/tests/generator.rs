use pass::charset::{build_pool, DIGITS, LOWERCASE, SPECIALS, UPPERCASE};
use pass::error::PassError;
use pass::generator::{generate_from_pool, generate_password, push_choice};

fn is_alphanumeric(c: char) -> bool {
    LOWERCASE.contains(c) || UPPERCASE.contains(c) || DIGITS.contains(c)
}

#[test]
fn pool_constants_are_the_fixed_sets() {
    assert_eq!(LOWERCASE, "abcdefghijklmnopqrstuvwxyz");
    assert_eq!(UPPERCASE, "ABCDEFGHIJKLMNOPQRSTUVWXYZ");
    assert_eq!(DIGITS, "0123456789");
    assert_eq!(SPECIALS, "!@#$%^&*()-_=+[{]};:'\",.<>/?");
    assert_eq!(SPECIALS.chars().count(), 28);
}

#[test]
fn pool_without_specials_is_letters_and_digits() {
    assert_eq!(
        build_pool(false),
        "abcdefghijklmnopqrstuvwxyzABCDEFGHIJKLMNOPQRSTUVWXYZ0123456789"
    );
}

#[test]
fn pool_with_specials_ends_in_the_special_set() {
    assert_eq!(
        build_pool(true),
        "abcdefghijklmnopqrstuvwxyzABCDEFGHIJKLMNOPQRSTUVWXYZ0123456789!@#$%^&*()-_=+[{]};:'\",.<>/?"
    );
    assert_eq!(build_pool(true).chars().count(), 90);
}

#[test]
fn generated_password_has_the_requested_length() {
    for length in [0u32, 1, 2, 8, 15, 50, 257, 1000] {
        for include_specials in [false, true] {
            let password = generate_password(length, include_specials);
            assert_eq!(password.chars().count(), length as usize);
        }
    }
}

#[test]
fn zero_length_gives_the_empty_string() {
    assert_eq!(generate_password(0, true), "");
    assert_eq!(generate_password(0, false), "");
}

#[test]
fn every_character_comes_from_the_pool() {
    for _ in 0..200 {
        let password = generate_password(40, true);
        for c in password.chars() {
            assert!(is_alphanumeric(c) || SPECIALS.contains(c), "unexpected {:?}", c);
        }
    }
}

#[test]
fn no_special_character_without_specials() {
    for _ in 0..500 {
        let password = generate_password(64, false);
        assert_eq!(password.chars().count(), 64);
        for c in password.chars() {
            assert!(is_alphanumeric(c), "unexpected {:?}", c);
            assert!(!SPECIALS.contains(c));
        }
    }
}

#[test]
fn all_four_classes_show_up_with_specials() {
    let mut complete = 0;
    for _ in 0..200 {
        let password = generate_password(50, true);
        let lower = password.chars().any(|c| LOWERCASE.contains(c));
        let upper = password.chars().any(|c| UPPERCASE.contains(c));
        let digit = password.chars().any(|c| DIGITS.contains(c));
        let special = password.chars().any(|c| SPECIALS.contains(c));
        if lower && upper && digit && special {
            complete += 1;
        }
    }
    assert!(complete >= 180, "only {} of 200 held all four classes", complete);
}

#[test]
fn two_passwords_differ() {
    let first = generate_password(50, true);
    let second = generate_password(50, true);
    assert_ne!(first, second);
}

#[test]
fn single_character_pool_repeats_that_character() {
    let password = generate_from_pool(5, "x").unwrap();
    assert_eq!(password, "xxxxx");
}

#[test]
fn draws_stay_inside_a_custom_pool() {
    let password = generate_from_pool(300, "ab\u{e9}").unwrap();
    assert_eq!(password.chars().count(), 300);
    assert!(password.chars().all(|c| c == 'a' || c == 'b' || c == '\u{e9}'));
    assert!(password.contains('a') && password.contains('b') && password.contains('\u{e9}'));
    assert_ne!(password, "ab\u{e9}");
}

#[test]
fn draws_are_roughly_even() {
    let password = generate_from_pool(10000, "ab").unwrap();
    let a = password.chars().filter(|c| *c == 'a').count();
    assert!(a > 4500 && a < 5500, "{} of 10000 draws were the first character", a);
}

#[test]
fn empty_pool_is_a_configuration_error() {
    assert_eq!(generate_from_pool(1, ""), Err(PassError::Config));
    assert_eq!(generate_from_pool(15, ""), Err(PassError::Config));
}

#[test]
fn empty_pool_with_zero_length_is_empty() {
    assert_eq!(generate_from_pool(0, ""), Ok(String::new()));
    assert_eq!(generate_from_pool(0, "abc"), Ok(String::new()));
}

#[test]
fn push_choice_adds_the_drawn_character() {
    let mut password = String::from("ab");
    push_choice(&mut password, Some('c'));
    assert_eq!(password, "abc");
    push_choice(&mut password, None);
    assert_eq!(password, "abc");
    push_choice(&mut password, Some('\u{e9}'));
    assert_eq!(password, "abc\u{e9}");
}
