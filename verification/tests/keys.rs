use plugin_host::keys::step;
use plugin_host::keys::should_invoke;
use plugin_host::keys::KEY_BACKSPACE;
use plugin_host::keys::KEY_DELETE;
use plugin_host::keys::KEY_ESCAPE;

#[test]
fn backspace_erases_down_to_empty_and_stays_there() {
    let after_one = step(String::from("ab"), KEY_BACKSPACE).unwrap();
    assert_eq!(after_one, "a");
    let after_two = step(after_one, KEY_BACKSPACE).unwrap();
    assert_eq!(after_two, "");
    let after_three = step(after_two, KEY_BACKSPACE).unwrap();
    assert_eq!(after_three, "");
}

#[test]
fn delete_behaves_like_backspace() {
    assert_eq!(step(String::from("ab"), KEY_DELETE).unwrap(), "a");
    assert_eq!(step(String::from("x"), KEY_DELETE).unwrap(), "");
    assert_eq!(step(String::new(), KEY_DELETE).unwrap(), "");
}

#[test]
fn escape_terminates_from_any_buffer() {
    assert!(step(String::from("abc"), KEY_ESCAPE).is_none());
    assert!(step(String::new(), KEY_ESCAPE).is_none());
}

#[test]
fn letters_digits_and_space_are_appended() {
    assert_eq!(step(String::from("wa"), b's').unwrap(), "was");
    assert_eq!(step(String::from("wa"), b'S').unwrap(), "waS");
    assert_eq!(step(String::from("v"), b'5').unwrap(), "v5");
    assert_eq!(step(String::from("a"), b' ').unwrap(), "a ");
    assert_eq!(step(String::new(), b'q').unwrap(), "q");
}

#[test]
fn other_bytes_leave_the_buffer_unchanged() {
    assert_eq!(step(String::from("wa"), b'0').unwrap(), "wa");
    assert_eq!(step(String::from("wa"), 9).unwrap(), "wa");
    assert_eq!(step(String::from("wa"), b'!').unwrap(), "wa");
    assert_eq!(step(String::from("wa"), 0).unwrap(), "wa");
}

#[test]
fn invocation_is_owed_exactly_to_nonempty_buffers() {
    assert!(!should_invoke(""));
    assert!(should_invoke("a"));
    assert!(should_invoke(" "));
}
