use hello_events::errors::{HelloError, ValidationError};
use hello_events::handler::validate;
use hello_events::model::CustomEvent;

#[test]
fn test_validate() {
    let e0 = CustomEvent::new("sldkfj@sldfkj.com", "", "Blah");
    assert!(validate(&e0).is_err());
    let e1 = CustomEvent::new("", "sdfl", "slkjdf");
    assert!(validate(&e1).is_err());
    let e2 = CustomEvent::new("asdf", "sdfl", "");
    assert!(validate(&e2).is_err());
    let e2 = CustomEvent::new("asdf", "sdfl", "asdf");
    assert!(validate(&e2).is_ok());
}

#[test]
fn empty_email_is_reported_first() {
    for (first, last) in [("", ""), ("A", ""), ("", "B"), ("A", "B")] {
        let e = CustomEvent::new("", first, last);
        assert_eq!(validate(&e).err(), Some(ValidationError::EmptyEmail));
    }
}

#[test]
fn empty_first_name_is_reported_second() {
    for last in ["", "B"] {
        let e = CustomEvent::new("a@b.com", "", last);
        assert_eq!(validate(&e).err(), Some(ValidationError::EmptyFirstName));
    }
}

#[test]
fn empty_last_name_is_reported_third() {
    let e = CustomEvent::new("a@b.com", "A", "");
    assert_eq!(validate(&e).err(), Some(ValidationError::EmptyLastName));
}

#[test]
fn valid_event_passes_through_unchanged() {
    let e = CustomEvent::new("a@b.com", "A", "B");
    let v = validate(&e).expect("a fully populated event must validate");
    assert_eq!(v.email, "a@b.com");
    assert_eq!(v.first_name, "A");
    assert_eq!(v.last_name, "B");
}

#[test]
fn validation_messages_name_the_field() {
    assert_eq!(ValidationError::EmptyEmail.describe(), "Empty email");
    assert_eq!(ValidationError::EmptyFirstName.describe(), "Empty First Name");
    assert_eq!(ValidationError::EmptyLastName.describe(), "Empty Last Name");
}

#[test]
fn validation_error_type_tag() {
    let e = HelloError::Validation(ValidationError::EmptyEmail);
    assert_eq!(e.error_type(), "ValidationError");
    assert_eq!(e.describe(), "Empty email");
}
