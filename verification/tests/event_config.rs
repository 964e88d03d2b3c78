use contract_env::event_config::{ConfigError, EventConfig, MetaNameValue, MetaValue};

fn arg(name: &str, value: MetaValue) -> MetaNameValue {
    MetaNameValue { name: String::from(name), value }
}

fn text(value: &str) -> MetaValue {
    MetaValue::Str(String::from(value))
}

#[test]
fn empty_arguments_give_the_default() {
    let config = EventConfig::try_from(vec![]).unwrap();
    assert!(!config.anonymous());
    assert_eq!(config.signature_topic_hex(), None);
    assert_eq!(config, EventConfig::new(false, None));
}

#[test]
fn anonymous_is_read() {
    let config = EventConfig::try_from(vec![arg("anonymous", MetaValue::Bool(true))]).unwrap();
    assert!(config.anonymous());
    assert_eq!(config.signature_topic_hex(), None);
    let config = EventConfig::try_from(vec![arg("anonymous", MetaValue::Bool(false))]).unwrap();
    assert!(!config.anonymous());
}

#[test]
fn signature_topic_is_read() {
    let config = EventConfig::try_from(vec![arg("signature_topic", text("11"))]).unwrap();
    assert!(!config.anonymous());
    assert_eq!(config.signature_topic_hex(), Some("11"));
    assert_eq!(config, EventConfig::new(false, Some(String::from("11"))));
}

#[test]
fn anonymous_may_follow_signature_topic() {
    let config = EventConfig::try_from(vec![
        arg("signature_topic", text("ab")),
        arg("anonymous", MetaValue::Bool(true)),
    ])
    .unwrap();
    assert!(config.anonymous());
    assert_eq!(config.signature_topic_hex(), Some("ab"));
}

#[test]
fn signature_topic_may_not_follow_anonymous() {
    let error = EventConfig::try_from(vec![
        arg("anonymous", MetaValue::Bool(false)),
        arg("signature_topic", text("ab")),
    ])
    .unwrap_err();
    assert_eq!(error, ConfigError::SignatureTopicWithAnonymous { at: 1 });
    assert_eq!(
        error.message(),
        "cannot specify `signature_topic` with `anonymous` in ink! event item configuration argument"
    );
    assert_eq!(error.position(), 1);
}

#[test]
fn duplicates_are_refused() {
    let error = EventConfig::try_from(vec![
        arg("anonymous", MetaValue::Bool(true)),
        arg("anonymous", MetaValue::Bool(true)),
    ])
    .unwrap_err();
    assert_eq!(error, ConfigError::DuplicateAnonymous { first: 0, second: 1 });
    assert_eq!(
        error.message(),
        "encountered duplicate ink! event `anonymous` configuration argument"
    );
    let error = EventConfig::try_from(vec![
        arg("signature_topic", text("ab")),
        arg("signature_topic", text("cd")),
    ])
    .unwrap_err();
    assert_eq!(error, ConfigError::DuplicateSignatureTopic { first: 0, second: 1 });
    assert_eq!(error.position(), 1);
}

#[test]
fn ill_typed_values_are_refused() {
    let error = EventConfig::try_from(vec![arg("anonymous", text("true"))]).unwrap_err();
    assert_eq!(error, ConfigError::ExpectedBool { at: 0 });
    assert_eq!(
        error.message(),
        "expected a bool literal for `anonymous` ink! event item configuration argument"
    );
    let error = EventConfig::try_from(vec![arg("anonymous", MetaValue::Other)]).unwrap_err();
    assert_eq!(error, ConfigError::ExpectedBool { at: 0 });
    let error =
        EventConfig::try_from(vec![arg("signature_topic", MetaValue::Bool(true))]).unwrap_err();
    assert_eq!(error, ConfigError::ExpectedString { at: 0 });
}

#[test]
fn unknown_arguments_are_refused() {
    let error = EventConfig::try_from(vec![
        arg("signature_topic", text("ab")),
        arg("storage", MetaValue::Bool(true)),
        arg("anonymous", text("no bool")),
    ])
    .unwrap_err();
    assert_eq!(error, ConfigError::UnknownArgument { at: 1 });
    assert_eq!(
        error.message(),
        "encountered unknown or unsupported ink! event item configuration argument"
    );
    let error = EventConfig::try_from(vec![arg("Anonymous", MetaValue::Bool(true))]).unwrap_err();
    assert_eq!(error, ConfigError::UnknownArgument { at: 0 });
}

#[test]
fn the_first_fault_decides() {
    let error = EventConfig::try_from(vec![
        arg("anonymous", MetaValue::Bool(true)),
        arg("anonymous", text("x")),
        arg("nope", MetaValue::Other),
    ])
    .unwrap_err();
    assert_eq!(error, ConfigError::DuplicateAnonymous { first: 0, second: 1 });
}
