use pass::charset::SPECIALS;
use pass::cli::{Flow, Options, DEFAULT_LENGTH};
use pass::error::PassError;
use pass::store::append_record;

#[test]
fn defaults_are_fifteen_with_specials_and_no_name() {
    let options = Options::from_flags(None, false, None);
    assert_eq!(DEFAULT_LENGTH, 15);
    assert_eq!(options.length, 15);
    assert!(options.include_specials);
    assert_eq!(options.name, "");
    assert_eq!(options.flow(), Flow::Retrieve);
}

#[test]
fn switch_turns_specials_off() {
    assert!(!Options::from_flags(None, true, None).include_specials);
    assert!(Options::from_flags(Some(3), false, Some(String::from("n"))).include_specials);
}

#[test]
fn given_values_are_kept() {
    let options = Options::from_flags(Some(0), true, Some(String::from("email")));
    assert_eq!(options.length, 0);
    assert_eq!(options.name, "email");
    let options = Options::from_flags(Some(u32::MAX), false, Some(String::new()));
    assert_eq!(options.length, u32::MAX);
    assert_eq!(options.name, "");
}

#[test]
fn name_decides_the_flow() {
    assert_eq!(Options::from_flags(None, false, Some(String::new())).flow(), Flow::Retrieve);
    assert_eq!(Options::from_flags(None, false, Some(String::from("x"))).flow(), Flow::Generate);
    assert_eq!(Options::from_flags(Some(8), true, Some(String::from(" "))).flow(), Flow::Generate);
}

#[test]
fn generation_without_specials_stores_one_line() {
    let options = Options::from_flags(Some(8), true, Some(String::from("email")));
    assert_eq!(options.flow(), Flow::Generate);
    let entry = options.new_entry();
    assert_eq!(entry.password.chars().count(), 8);
    assert!(entry.password.chars().all(|c| c.is_ascii_alphanumeric()));
    assert!(entry.password.chars().all(|c| !SPECIALS.contains(c)));
    assert_eq!(entry.line, format!("email: {}\n", entry.password));

    let mut contents = String::from("alice: p@ss1\n");
    append_record(&mut contents, &options.name, &entry.password);
    assert_eq!(contents, format!("alice: p@ss1\n{}", entry.line));
    assert_eq!(contents.lines().count(), 2);
}

#[test]
fn default_entry_has_fifteen_characters() {
    let options = Options::from_flags(None, false, Some(String::from("bank")));
    let entry = options.new_entry();
    assert_eq!(entry.password.chars().count(), 15);
    assert!(entry.line.starts_with("bank: "));
    assert!(entry.line.ends_with('\n'));
}

#[test]
fn every_error_has_a_nonzero_exit_code() {
    let all = [
        PassError::Config,
        PassError::Io,
        PassError::ExternalProcess,
        PassError::Clipboard,
        PassError::Format,
    ];
    for (i, e) in all.iter().enumerate() {
        assert_ne!(e.exit_code(), 0);
        assert!(!e.message().is_empty());
        for other in &all[i + 1..] {
            assert_ne!(e.exit_code(), other.exit_code());
            assert_ne!(e.message(), other.message());
        }
    }
}

#[test]
fn error_messages_and_codes() {
    assert_eq!(PassError::Config.message(), "configuration error");
    assert_eq!(PassError::Io.message(), "store could not be read or written");
    assert_eq!(PassError::ExternalProcess.message(), "finder could not be run");
    assert_eq!(PassError::Clipboard.message(), "clipboard could not be accessed");
    assert_eq!(PassError::Format.message(), "invalid password format");
    assert_eq!(PassError::Config.exit_code(), 2);
    assert_eq!(PassError::Io.exit_code(), 3);
    assert_eq!(PassError::ExternalProcess.exit_code(), 4);
    assert_eq!(PassError::Clipboard.exit_code(), 5);
    assert_eq!(PassError::Format.exit_code(), 6);
}
