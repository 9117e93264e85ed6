use basics::clean::strip_punctuation;
use basics::password::{generate_password, password_char};
use basics::users::{Admin, Regular, User};
use std::cell::RefCell;

#[test]
fn callback_gets_exclaimed_text() {
    let seen = RefCell::new(String::new());
    basics::callback::test(|s: &str| *seen.borrow_mut() = s.to_string(), "Nyaaaa");
    assert_eq!("Nyaaaa!!!", seen.borrow().as_str());
    basics::callback::test(|s: &str| *seen.borrow_mut() = s.to_string(), "");
    assert_eq!("!!!", seen.borrow().as_str());
}

#[test]
fn messages_name_sender_and_recipient() {
    let regular = Regular::new("tester");
    let admin = Admin::new("Root");
    assert_eq!("tester", regular.get_name());
    assert_eq!("Root", admin.get_name());
    assert_eq!("User [tester] send a message to Root", regular.message_to(admin.get_name()));
    assert_eq!("Admin ~[Root]~ send a message to tester", admin.message_to(regular.get_name()));
}

#[test]
fn password_chars_come_from_the_range() {
    assert_eq!('A', password_char(0));
    assert_eq!('y', password_char(56));
    assert_eq!('A', password_char(57));
    assert_eq!('B', password_char(58));
    assert_eq!('Z', password_char(25));
    assert_eq!('a', password_char(32));
}

#[test]
fn password_has_requested_length() {
    let p = generate_password(50);
    assert_eq!(50, p.chars().count());
    assert!(p.chars().all(|c| ('A'..'z').contains(&c)));
    assert_eq!("", generate_password(0));
}

#[test]
fn punctuation_is_stripped() {
    assert_eq!(
        "some variable will be nested  Neko ni",
        strip_punctuation("\\some` variable,` will be. nested! ; Neko ni?")
    );
    assert_eq!("", strip_punctuation(""));
    assert_eq!("", strip_punctuation("!.`;*,?/\\"));
    assert_eq!("plain", strip_punctuation("plain"));
}
