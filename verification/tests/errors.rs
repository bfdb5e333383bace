use zhua::ErrorKind;

#[test]
fn with_field_keeps_kind_and_field() {
    let error = ErrorKind::ElementNotFound.with_field("x");
    assert_eq!(error.field(), "x");
    assert!(matches!(error.kind(), ErrorKind::ElementNotFound));

    let error = ErrorKind::AttributeNotFound("href".to_string()).with_field("x");
    assert_eq!(error.field(), "x");
    match error.kind() {
        ErrorKind::AttributeNotFound(name) => assert_eq!(name, "href"),
        other => panic!("unexpected {:?}", other),
    }

    let error = ErrorKind::InvalidSelector("why".to_string()).with_field("");
    assert_eq!(error.field(), "");
    match error.kind() {
        ErrorKind::InvalidSelector(detail) => assert_eq!(detail, "why"),
        other => panic!("unexpected {:?}", other),
    }
}

#[test]
fn with_field_gives_the_same_error_wherever_it_is_called() {
    let here = ErrorKind::ElementNotFound.with_field("x");
    let there = (|| ErrorKind::ElementNotFound.with_field("x"))();
    assert_eq!(here.field(), there.field());
    assert_eq!(here.message(), there.message());
}

#[test]
fn custom_keeps_the_message_of_the_cause() {
    let cause = "12a".parse::<u8>().unwrap_err();
    let expected = cause.to_string();
    match ErrorKind::custom(cause) {
        ErrorKind::Custom(message) => assert_eq!(message, expected),
        other => panic!("unexpected {:?}", other),
    }
}

#[test]
fn kind_messages() {
    assert_eq!(
        ErrorKind::InvalidSelector("detail".to_string()).message(),
        "invalid selector provided"
    );
    assert_eq!(ErrorKind::ElementNotFound.message(), "no element match the selector");
    assert_eq!(
        ErrorKind::AttributeNotFound("href".to_string()).message(),
        "the element does not contain attribute `href`"
    );
    assert_eq!(ErrorKind::Custom("cause".to_string()).message(), "custom error");
}

#[test]
fn error_message_names_kind_and_field() {
    assert_eq!(
        ErrorKind::ElementNotFound.with_field("doi").message(),
        "no element match the selector in field `doi`"
    );
    assert_eq!(
        ErrorKind::AttributeNotFound("href".to_string()).with_field("link").message(),
        "the element does not contain attribute `href` in field `link`"
    );
    assert_eq!(
        ErrorKind::Custom("cause".to_string()).with_field("n").message(),
        "custom error in field `n`"
    );
}
