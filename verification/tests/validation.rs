use zero2prod::error::AppError;
use zero2prod::form::{is_form_content_type, Field, FormRejection};
use zero2prod::routes::subscriptions::SubscribeForm;

const FORM: &str = "application/x-www-form-urlencoded";

fn pair(key: &str, value: &str) -> (String, String) {
    (key.to_string(), value.to_string())
}

fn message_of(result: Result<SubscribeForm, AppError>) -> String {
    match result {
        Err(AppError::ValidationError(message)) => message,
        Err(_) => panic!("not a validation failure"),
        Ok(form) => panic!("accepted: {:?}", form),
    }
}

#[test]
fn from_pairs_takes_both_fields() {
    let form = SubscribeForm::from_pairs(vec![pair("name", "le guin"), pair("email", "u@g.com")]);
    assert_eq!(
        Ok(SubscribeForm { name: "le guin".to_string(), email: "u@g.com".to_string() }),
        form
    );
}

#[test]
fn from_pairs_takes_the_fields_in_any_order() {
    let form = SubscribeForm::from_pairs(vec![pair("email", "u@g.com"), pair("name", "le guin")]);
    assert_eq!(
        Ok(SubscribeForm { name: "le guin".to_string(), email: "u@g.com".to_string() }),
        form
    );
}

#[test]
fn from_pairs_passes_over_other_keys() {
    let form = SubscribeForm::from_pairs(vec![
        pair("utm", "x"),
        pair("name", "a"),
        pair("utm", "y"),
        pair("email", "b"),
        pair("Name", "c"),
    ]);
    assert_eq!(Ok(SubscribeForm { name: "a".to_string(), email: "b".to_string() }), form);
}

#[test]
fn from_pairs_accepts_empty_values() {
    let form = SubscribeForm::from_pairs(vec![pair("name", ""), pair("email", "")]);
    assert_eq!(Ok(SubscribeForm { name: String::new(), email: String::new() }), form);
}

#[test]
fn from_pairs_misses_name_first() {
    assert_eq!(
        Err(FormRejection::MissingField(Field::Name)),
        SubscribeForm::from_pairs(vec![])
    );
    assert_eq!(
        Err(FormRejection::MissingField(Field::Name)),
        SubscribeForm::from_pairs(vec![pair("email", "b")])
    );
}

#[test]
fn from_pairs_misses_email() {
    assert_eq!(
        Err(FormRejection::MissingField(Field::Email)),
        SubscribeForm::from_pairs(vec![pair("name", "a")])
    );
}

#[test]
fn from_pairs_rejects_the_first_repeated_key() {
    assert_eq!(
        Err(FormRejection::DuplicateField(Field::Name)),
        SubscribeForm::from_pairs(vec![pair("name", "a"), pair("name", "b")])
    );
    assert_eq!(
        Err(FormRejection::DuplicateField(Field::Email)),
        SubscribeForm::from_pairs(vec![pair("email", "a"), pair("email", "b")])
    );
    assert_eq!(
        Err(FormRejection::DuplicateField(Field::Email)),
        SubscribeForm::from_pairs(vec![
            pair("name", "a"),
            pair("email", "b"),
            pair("email", "c"),
            pair("name", "d"),
        ])
    );
    assert_eq!(
        Err(FormRejection::DuplicateField(Field::Name)),
        SubscribeForm::from_pairs(vec![
            pair("email", "b"),
            pair("name", "a"),
            pair("other", "x"),
            pair("name", "d"),
            pair("email", "c"),
        ])
    );
}

#[test]
fn a_duplicate_is_reported_before_a_missing_field() {
    assert_eq!(
        Err(FormRejection::DuplicateField(Field::Email)),
        SubscribeForm::from_pairs(vec![pair("email", "a"), pair("email", "a")])
    );
}

#[test]
fn rejections_have_their_messages() {
    assert_eq!(
        "Form requests must have `Content-Type: application/x-www-form-urlencoded`",
        FormRejection::InvalidFormContentType.body_text()
    );
    assert_eq!(
        "Failed to deserialize form body: duplicate field `name`",
        FormRejection::DuplicateField(Field::Name).body_text()
    );
    assert_eq!(
        "Failed to deserialize form body: duplicate field `email`",
        FormRejection::DuplicateField(Field::Email).body_text()
    );
    assert_eq!(
        "Failed to deserialize form body: missing field `name`",
        FormRejection::MissingField(Field::Name).body_text()
    );
    assert_eq!(
        "Failed to deserialize form body: missing field `email`",
        FormRejection::MissingField(Field::Email).body_text()
    );
}

#[test]
fn a_rejection_becomes_a_validation_failure() {
    match FormRejection::MissingField(Field::Email).into_error() {
        AppError::ValidationError(message) => {
            assert_eq!("Failed to deserialize form body: missing field `email`", message)
        }
        _ => panic!("not a validation failure"),
    }
}

#[test]
fn content_type_must_begin_with_the_form_type() {
    assert!(is_form_content_type(Some(FORM)));
    assert!(is_form_content_type(Some("application/x-www-form-urlencoded; charset=UTF-8")));
    assert!(is_form_content_type(Some("application/x-www-form-urlencodedX")));
    assert!(!is_form_content_type(None));
    assert!(!is_form_content_type(Some("")));
    assert!(!is_form_content_type(Some("application/json")));
    assert!(!is_form_content_type(Some("application/x-www-form-urlencode")));
    assert!(!is_form_content_type(Some("Application/x-www-form-urlencoded")));
    assert!(!is_form_content_type(Some(" application/x-www-form-urlencoded")));
    assert!(!is_form_content_type(Some("text/plain; application/x-www-form-urlencoded")));
    assert!(!is_form_content_type(Some("applicati\u{f6}n/x-www-form-urlencoded")));
}

#[test]
fn parse_decodes_percent_escapes_and_plus() {
    let form = SubscribeForm::parse(
        b"name=le%20guin&email=ursula_le_guin%40gmail.com",
        Some(FORM),
    );
    assert_eq!(
        Some(SubscribeForm {
            name: "le guin".to_string(),
            email: "ursula_le_guin@gmail.com".to_string(),
        }),
        form.ok()
    );
    let form = SubscribeForm::parse(b"email=a%2Bb%40c.d&name=Ursula+K.+Le+Guin", Some(FORM));
    assert_eq!(
        Some(SubscribeForm {
            name: "Ursula K. Le Guin".to_string(),
            email: "a+b@c.d".to_string(),
        }),
        form.ok()
    );
}

#[test]
fn parse_decodes_keys_too() {
    let form = SubscribeForm::parse(b"%6e%61%6d%65=a&e%6Dail=b", Some(FORM));
    assert_eq!(
        Some(SubscribeForm { name: "a".to_string(), email: "b".to_string() }),
        form.ok()
    );
}

#[test]
fn parse_skips_empty_segments_and_takes_a_bare_key_as_empty() {
    let form = SubscribeForm::parse(b"&&name&&email&", Some(FORM));
    assert_eq!(
        Some(SubscribeForm { name: String::new(), email: String::new() }),
        form.ok()
    );
}

#[test]
fn parse_splits_at_the_first_equals_sign() {
    let form = SubscribeForm::parse(b"name=a=b&email=c", Some(FORM));
    assert_eq!(
        Some(SubscribeForm { name: "a=b".to_string(), email: "c".to_string() }),
        form.ok()
    );
}

#[test]
fn parse_keeps_what_it_cannot_decode() {
    let form = SubscribeForm::parse(b"name=100%&email=%zz%4", Some(FORM));
    assert_eq!(
        Some(SubscribeForm { name: "100%".to_string(), email: "%zz%4".to_string() }),
        form.ok()
    );
    let form = SubscribeForm::parse(b"name=%ff&email=\xc3", Some(FORM));
    assert_eq!(
        Some(SubscribeForm { name: "\u{fffd}".to_string(), email: "\u{fffd}".to_string() }),
        form.ok()
    );
}

#[test]
fn parse_looks_at_the_content_type_first() {
    let valid = b"name=le%20guin&email=ursula_le_guin%40gmail.com";
    let wanted = "Form requests must have `Content-Type: application/x-www-form-urlencoded`";
    assert_eq!(wanted, message_of(SubscribeForm::parse(valid, None)));
    assert_eq!(wanted, message_of(SubscribeForm::parse(valid, Some("application/json"))));
    assert_eq!(wanted, message_of(SubscribeForm::parse(b"", Some("text/plain"))));
}

#[test]
fn parse_names_what_is_wrong() {
    assert_eq!(
        "Failed to deserialize form body: missing field `email`",
        message_of(SubscribeForm::parse(b"name=le%20guin", Some(FORM)))
    );
    assert_eq!(
        "Failed to deserialize form body: missing field `name`",
        message_of(SubscribeForm::parse(b"email=ursula_le_guin%40gmail.com", Some(FORM)))
    );
    assert_eq!(
        "Failed to deserialize form body: missing field `name`",
        message_of(SubscribeForm::parse(b"", Some(FORM)))
    );
    assert_eq!(
        "Failed to deserialize form body: duplicate field `name`",
        message_of(SubscribeForm::parse(b"name=a&email=b&name=c", Some(FORM)))
    );
    assert_eq!(
        "Failed to deserialize form body: duplicate field `email`",
        message_of(SubscribeForm::parse(b"email=b&email=c", Some(FORM)))
    );
}

#[test]
fn parse_takes_a_json_payload_as_a_form_without_fields() {
    assert_eq!(
        "Failed to deserialize form body: missing field `name`",
        message_of(SubscribeForm::parse(b"{\"name\":\"a\",\"email\":\"b\"}", Some(FORM)))
    );
}
