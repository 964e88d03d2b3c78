//! Configuration of an event definition, read from the arguments of its
//! attribute.

use vstd::prelude::*;

verus! {

/// The value of one attribute argument, as far as a configuration reads it.
#[derive(Clone, Debug, PartialEq, Eq)]
pub enum MetaValue {
    /// A bool literal.
    Bool(bool),
    /// A string literal.
    Str(String),
    /// Anything else: a path, a symbol, a literal of another kind.
    Other,
}

/// One `name = value` argument of an attribute.
#[derive(Clone, Debug, PartialEq, Eq)]
pub struct MetaNameValue {
    /// The argument's name: the identifier where the name is a single
    /// identifier, otherwise the path as written.
    pub name: String,
    /// The argument's value.
    pub value: MetaValue,
}

/// The arguments of an attribute, in source order.
pub type AttributeArgs = Vec<MetaNameValue>;

/// Why a list of attribute arguments is no event configuration. Every
/// position counts arguments from zero.
#[derive(Clone, Copy, Debug, PartialEq, Eq, Structural)]
pub enum ConfigError {
    /// `anonymous` is given at `second` after it was given at `first`.
    DuplicateAnonymous { first: usize, second: usize },
    /// `signature_topic` is given at `second` after it was given at `first`.
    DuplicateSignatureTopic { first: usize, second: usize },
    /// The value of `anonymous` at `at` is no bool literal.
    ExpectedBool { at: usize },
    /// The value of `signature_topic` at `at` is no string literal.
    ExpectedString { at: usize },
    /// `signature_topic` at `at` follows an `anonymous` argument.
    SignatureTopicWithAnonymous { at: usize },
    /// The argument at `at` has a name that events do not know.
    UnknownArgument { at: usize },
}

impl ConfigError {
    /// The position of the argument that the error is reported at.
    pub open spec fn spec_position(self) -> usize {
        match self {
            ConfigError::DuplicateAnonymous { second, .. } => second,
            ConfigError::DuplicateSignatureTopic { second, .. } => second,
            ConfigError::ExpectedBool { at } => at,
            ConfigError::ExpectedString { at } => at,
            ConfigError::SignatureTopicWithAnonymous { at } => at,
            ConfigError::UnknownArgument { at } => at,
        }
    }

    /// The text of the diagnostic for this error.
    pub open spec fn spec_message(self) -> Seq<char> {
        match self {
            ConfigError::DuplicateAnonymous { .. } =>
                "encountered duplicate ink! event `anonymous` configuration argument"@,
            ConfigError::DuplicateSignatureTopic { .. } =>
                "encountered duplicate ink! event `anonymous` configuration argument"@,
            ConfigError::ExpectedBool { .. } =>
                "expected a bool literal for `anonymous` ink! event item configuration argument"@,
            ConfigError::ExpectedString { .. } =>
                "expected a bool literal for `anonymous` ink! event item configuration argument"@,
            ConfigError::SignatureTopicWithAnonymous { .. } =>
                "cannot specify `signature_topic` with `anonymous` in ink! event item configuration argument"@,
            ConfigError::UnknownArgument { .. } =>
                "encountered unknown or unsupported ink! event item configuration argument"@,
        }
    }

    /// Returns the position of the argument that the error is reported at.
    pub fn position(&self) -> (at: usize)
        ensures
            at == self.spec_position(),
    {
        match self {
            ConfigError::DuplicateAnonymous { second, .. } => *second,
            ConfigError::DuplicateSignatureTopic { second, .. } => *second,
            ConfigError::ExpectedBool { at } => *at,
            ConfigError::ExpectedString { at } => *at,
            ConfigError::SignatureTopicWithAnonymous { at } => *at,
            ConfigError::UnknownArgument { at } => *at,
        }
    }

    /// Returns the text of the diagnostic for this error. A duplicate or
    /// ill-typed `signature_topic` is reported in the words used for
    /// `anonymous`.
    pub fn message(&self) -> (text: String)
        ensures
            text@ == self.spec_message(),
    {
        match self {
            ConfigError::DuplicateAnonymous { .. } =>
                "encountered duplicate ink! event `anonymous` configuration argument".to_owned(),
            ConfigError::DuplicateSignatureTopic { .. } =>
                "encountered duplicate ink! event `anonymous` configuration argument".to_owned(),
            ConfigError::ExpectedBool { .. } =>
                "expected a bool literal for `anonymous` ink! event item configuration argument".to_owned(),
            ConfigError::ExpectedString { .. } =>
                "expected a bool literal for `anonymous` ink! event item configuration argument".to_owned(),
            ConfigError::SignatureTopicWithAnonymous { .. } =>
                "cannot specify `signature_topic` with `anonymous` in ink! event item configuration argument".to_owned(),
            ConfigError::UnknownArgument { .. } =>
                "encountered unknown or unsupported ink! event item configuration argument".to_owned(),
        }
    }
}

/// What a scan has seen so far: the `anonymous` argument and the
/// `signature_topic` argument, each with its position.
pub struct Seen {
    pub anonymous: Option<(usize, bool)>,
    pub signature_topic: Option<(usize, Seq<char>)>,
}

/// The state of a scan before any argument.
pub open spec fn seen_nothing() -> Seen {
    Seen { anonymous: None, signature_topic: None }
}

/// Takes the argument at position `at` into account.
pub open spec fn scan_step(seen: Seen, arg: MetaNameValue, at: usize) -> Result<Seen, ConfigError> {
    if arg.name@ == "anonymous"@ {
        if let Some((first, _)) = seen.anonymous {
            Err(ConfigError::DuplicateAnonymous { first, second: at })
        } else if let MetaValue::Bool(value) = arg.value {
            Ok(Seen { anonymous: Some((at, value)), ..seen })
        } else {
            Err(ConfigError::ExpectedBool { at })
        }
    } else if arg.name@ == "signature_topic"@ {
        if seen.anonymous is Some {
            Err(ConfigError::SignatureTopicWithAnonymous { at })
        } else if let Some((first, _)) = seen.signature_topic {
            Err(ConfigError::DuplicateSignatureTopic { first, second: at })
        } else if let MetaValue::Str(value) = arg.value {
            Ok(Seen { signature_topic: Some((at, value@)), ..seen })
        } else {
            Err(ConfigError::ExpectedString { at })
        }
    } else {
        Err(ConfigError::UnknownArgument { at })
    }
}

/// Scans the first `n` arguments from left to right and stops at the first
/// one that is refused.
pub open spec fn scan(args: Seq<MetaNameValue>, n: nat) -> Result<Seen, ConfigError>
    decreases n,
{
    if n == 0 {
        Ok(seen_nothing())
    } else {
        match scan(args, (n - 1) as nat) {
            Err(e) => Err(e),
            Ok(seen) => scan_step(seen, args[n - 1], (n - 1) as usize),
        }
    }
}

/// An error, once met, is the outcome of every longer scan.
pub proof fn lemma_scan_error_sticks(args: Seq<MetaNameValue>, n: nat, m: nat)
    requires
        n <= m,
        scan(args, n) is Err,
    ensures
        scan(args, m) == scan(args, n),
    decreases m,
{
    if n < m {
        lemma_scan_error_sticks(args, n, (m - 1) as nat);
    }
}

/// The mathematical content of an [`EventConfig`].
pub struct EventConfigView {
    pub anonymous: bool,
    pub signature_topic_hex: Option<Seq<char>>,
}

/// The configuration that a complete scan stands for: `anonymous` defaults
/// to `false`, and no signature topic is set unless one was given.
pub open spec fn config_of(seen: Seen) -> EventConfigView {
    EventConfigView {
        anonymous: match seen.anonymous {
            Some((_, value)) => value,
            None => false,
        },
        signature_topic_hex: match seen.signature_topic {
            Some((_, value)) => Some(value),
            None => None,
        },
    }
}

/// The configuration that a list of arguments stands for, or the first
/// reason for which it stands for none.
pub open spec fn spec_try_from(args: Seq<MetaNameValue>) -> Result<EventConfigView, ConfigError> {
    match scan(args, args.len()) {
        Err(e) => Err(e),
        Ok(seen) => Ok(config_of(seen)),
    }
}

/// The configuration arguments of an event definition.
#[derive(Debug, PartialEq, Eq)]
pub struct EventConfig {
    /// If `false`, a signature topic is generated and emitted for the event.
    /// If `true`, no signature topic is generated or emitted.
    anonymous: bool,
    /// Manually specified signature topic hash.
    signature_topic_hex: Option<String>,
}

impl View for EventConfig {
    type V = EventConfigView;

    closed spec fn view(&self) -> EventConfigView {
        EventConfigView {
            anonymous: self.anonymous,
            signature_topic_hex: match self.signature_topic_hex {
                Some(s) => Some(s@),
                None => None,
            },
        }
    }
}

impl EventConfig {
    /// Reads the configuration from the arguments of the event attribute.
    ///
    /// The arguments are taken from left to right. `anonymous` takes a bool
    /// literal and `signature_topic` a string literal; each may be given
    /// once; `signature_topic` may not follow `anonymous`; no other name is
    /// known. The first argument that breaks one of these rules decides the
    /// error.
    pub fn try_from(args: AttributeArgs) -> (result: Result<EventConfig, ConfigError>)
        ensures
            match result {
                Ok(config) => spec_try_from(args@) == Ok::<EventConfigView, ConfigError>(config@),
                Err(e) => spec_try_from(args@) == Err::<EventConfigView, ConfigError>(e),
            },
    {
        let anonymous_name = "anonymous".to_owned();
        let signature_topic_name = "signature_topic".to_owned();
        let mut anonymous: Option<(usize, bool)> = None;
        let mut signature_topic: Option<(usize, String)> = None;
        let mut i: usize = 0;
        while i < args.len()
            invariant
                i <= args@.len(),
                anonymous_name@ == "anonymous"@,
                signature_topic_name@ == "signature_topic"@,
                scan(args@, i as nat) == Ok::<Seen, ConfigError>(
                    Seen {
                        anonymous,
                        signature_topic: match signature_topic {
                            Some((at, value)) => Some((at, value@)),
                            None => None,
                        },
                    },
                ),
            decreases args@.len() - i,
        {
            let arg = &args[i];
            if arg.name == anonymous_name {
                if let Some((first, _)) = anonymous {
                    proof {
                        lemma_scan_error_sticks(args@, (i + 1) as nat, args@.len());
                    }
                    return Err(ConfigError::DuplicateAnonymous { first, second: i });
                }
                if let MetaValue::Bool(value) = &arg.value {
                    anonymous = Some((i, *value));
                } else {
                    proof {
                        lemma_scan_error_sticks(args@, (i + 1) as nat, args@.len());
                    }
                    return Err(ConfigError::ExpectedBool { at: i });
                }
            } else if arg.name == signature_topic_name {
                if anonymous.is_some() {
                    proof {
                        lemma_scan_error_sticks(args@, (i + 1) as nat, args@.len());
                    }
                    return Err(ConfigError::SignatureTopicWithAnonymous { at: i });
                }
                if let Some((first, _)) = &signature_topic {
                    proof {
                        lemma_scan_error_sticks(args@, (i + 1) as nat, args@.len());
                    }
                    return Err(ConfigError::DuplicateSignatureTopic { first: *first, second: i });
                }
                if let MetaValue::Str(value) = &arg.value {
                    signature_topic = Some((i, value.clone()));
                } else {
                    proof {
                        lemma_scan_error_sticks(args@, (i + 1) as nat, args@.len());
                    }
                    return Err(ConfigError::ExpectedString { at: i });
                }
            } else {
                proof {
                        lemma_scan_error_sticks(args@, (i + 1) as nat, args@.len());
                    }
                    return Err(ConfigError::UnknownArgument { at: i });
            }
            i += 1;
        }
        let anonymous_value = match anonymous {
            Some((_, value)) => value,
            None => false,
        };
        let signature_topic_hex = match signature_topic {
            Some((_, value)) => Some(value),
            None => None,
        };
        Ok(EventConfig::new(anonymous_value, signature_topic_hex))
    }

    /// Construct a new [`EventConfig`].
    pub fn new(anonymous: bool, signature_topic_hex: Option<String>) -> (config: Self)
        ensures
            config@.anonymous == anonymous,
            config@.signature_topic_hex == match signature_topic_hex {
                Some(s) => Some(s@),
                None => None::<Seq<char>>,
            },
    {
        Self { anonymous, signature_topic_hex }
    }

    /// Returns the anonymous configuration argument.
    pub fn anonymous(&self) -> (anonymous: bool)
        ensures
            anonymous == self@.anonymous,
    {
        self.anonymous
    }

    /// Returns the manually specified signature topic.
    pub fn signature_topic_hex(&self) -> (topic: Option<&str>)
        ensures
            match topic {
                Some(s) => self@.signature_topic_hex == Some(s@),
                None => self@.signature_topic_hex is None,
            },
    {
        match &self.signature_topic_hex {
            Some(s) => Some(s.as_str()),
            None => None,
        }
    }
}

} // verus!
