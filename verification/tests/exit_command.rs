use assistant_chat::text::{capitalize_first_letter, is_exit_command, is_exit_word, to_upper_ascii};

#[test]
fn exit_in_any_case_ends() {
    assert!(is_exit_command("exit"));
    assert!(is_exit_command("Exit"));
    assert!(is_exit_command("EXIT"));
    assert!(is_exit_command("eXiT"));
}

#[test]
fn exit_with_surrounding_whitespace_ends() {
    assert!(is_exit_command("  exit  "));
    assert!(is_exit_command("Exit\n"));
    assert!(is_exit_command("\tEXIT\r\n"));
}

#[test]
fn longer_words_do_not_end() {
    assert!(!is_exit_command("exitnow"));
    assert!(!is_exit_command("ex it"));
    assert!(!is_exit_command("please exit"));
    assert!(!is_exit_command(""));
    assert!(!is_exit_command("   "));
}

#[test]
fn exit_word_is_exact() {
    assert!(is_exit_word("exit"));
    assert!(!is_exit_word("Exit"));
    assert!(!is_exit_word(" exit"));
    assert!(!is_exit_word("exi"));
}

#[test]
fn roles_get_a_capital() {
    assert_eq!(capitalize_first_letter("user"), "User");
    assert_eq!(capitalize_first_letter("assistant"), "Assistant");
    assert_eq!(capitalize_first_letter("User"), "User");
    assert_eq!(capitalize_first_letter("x"), "X");
    assert_eq!(capitalize_first_letter(""), "");
    assert_eq!(capitalize_first_letter("1abc"), "1abc");
}

#[test]
fn only_ascii_lower_case_letters_change() {
    assert_eq!(to_upper_ascii('a'), 'A');
    assert_eq!(to_upper_ascii('z'), 'Z');
    assert_eq!(to_upper_ascii('m'), 'M');
    assert_eq!(to_upper_ascii('A'), 'A');
    assert_eq!(to_upper_ascii('`'), '`');
    assert_eq!(to_upper_ascii('{'), '{');
    assert_eq!(to_upper_ascii('9'), '9');
    assert_eq!(to_upper_ascii('\u{e9}'), '\u{e9}');
}
