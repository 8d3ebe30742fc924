use classroom_model::courses::OwnerId;

#[test]
fn decode_me_literal_yields_me() {
    assert_eq!(OwnerId::decode("me"), OwnerId::Me);
}

#[test]
fn decode_all_digits_yields_id() {
    assert_eq!(
        OwnerId::decode("108987654321098765432"),
        OwnerId::Id("108987654321098765432".to_owned())
    );
}

#[test]
fn decode_single_digit_yields_id() {
    assert_eq!(OwnerId::decode("7"), OwnerId::Id("7".to_owned()));
}

#[test]
fn decode_email_yields_email() {
    assert_eq!(
        OwnerId::decode("teacher@school.edu"),
        OwnerId::Email("teacher@school.edu".to_owned())
    );
}

#[test]
fn decode_me_prefix_is_not_me() {
    assert_eq!(
        OwnerId::decode("me@school.edu"),
        OwnerId::Email("me@school.edu".to_owned())
    );
}

#[test]
fn decode_mixed_digits_and_letters_yields_email() {
    assert_eq!(OwnerId::decode("123abc"), OwnerId::Email("123abc".to_owned()));
}

#[test]
fn decode_empty_text_yields_id_of_empty() {
    assert_eq!(OwnerId::decode(""), OwnerId::Id(String::new()));
}

#[test]
fn encode_me_yields_literal() {
    assert_eq!(OwnerId::Me.encode(), "me");
}

#[test]
fn encode_id_passes_text_through() {
    assert_eq!(OwnerId::Id("42".to_owned()).encode(), "42");
}

#[test]
fn encode_email_passes_text_through() {
    assert_eq!(
        OwnerId::Email("teacher@school.edu".to_owned()).encode(),
        "teacher@school.edu"
    );
}

#[test]
fn encode_does_not_validate_directly_built_id() {
    assert_eq!(OwnerId::Id("not-digits".to_owned()).encode(), "not-digits");
}

#[test]
fn encode_after_decode_returns_input_text() {
    for text in ["me", "1234", "teacher@school.edu", "me@school.edu", ""] {
        assert_eq!(OwnerId::decode(text).encode(), text);
    }
}

#[test]
fn decode_after_encode_is_lossy_only_outside_decodable_values() {
    assert_eq!(OwnerId::decode(&OwnerId::Me.encode()), OwnerId::Me);
    assert_eq!(
        OwnerId::decode(&OwnerId::Id("99".to_owned()).encode()),
        OwnerId::Id("99".to_owned())
    );
    assert_eq!(
        OwnerId::decode(&OwnerId::Email("a@b.c".to_owned()).encode()),
        OwnerId::Email("a@b.c".to_owned())
    );
    // Directly built values outside the decodable set land on another
    // variant.
    assert_eq!(
        OwnerId::decode(&OwnerId::Email("me".to_owned()).encode()),
        OwnerId::Me
    );
    assert_eq!(
        OwnerId::decode(&OwnerId::Email("123".to_owned()).encode()),
        OwnerId::Id("123".to_owned())
    );
    assert_eq!(
        OwnerId::decode(&OwnerId::Id("x1".to_owned()).encode()),
        OwnerId::Email("x1".to_owned())
    );
}
