//! Configuration of an end-to-end test, read from the arguments of its
//! attribute.

use vstd::prelude::*;
use vstd::string::StrSliceExecFns;

verus! {

/// A path in source code, such as the path of a type. The library carries
/// paths through and never looks inside.
#[verifier::external_type_specification]
#[verifier::external_body]
pub struct ExPath(syn::Path);

/// `<syn::Path as Clone>::clone`: the copy is the same path.
pub assume_specification[ <syn::Path as Clone>::clone ](path: &syn::Path) -> (cloned: syn::Path)
    ensures
        cloned == *path,
;

/// The runtime emulator that a test without a node runs in.
#[derive(Clone, Debug, PartialEq, Eq)]
pub enum RuntimeOnly {
    /// The emulator's own minimal runtime.
    Default,
    /// The runtime at the given path.
    Runtime(syn::Path),
}

/// The type of the architecture that should be used to run a test.
#[derive(Clone, Debug, PartialEq, Eq, Default)]
pub enum Backend {
    /// The standard approach with running a dedicated single-node blockchain
    /// in a background process.
    #[default]
    Full,
    /// The lightweight approach skipping the node layer: a runtime emulator
    /// runs in the same process as the test.
    RuntimeOnly(RuntimeOnly),
}

/// The words of `text` that are complete at `from`, where the word that is
/// being read started at `start`: a word is a longest run of characters
/// other than the space.
pub open spec fn words_from(text: Seq<char>, start: int, from: int) -> Seq<Seq<char>>
    decreases text.len() - from,
{
    if from >= text.len() {
        if start < from {
            seq![text.subrange(start, text.len() as int)]
        } else {
            seq![]
        }
    } else if text[from] == ' ' {
        if start < from {
            seq![text.subrange(start, from)] + words_from(text, from + 1, from + 1)
        } else {
            words_from(text, from + 1, from + 1)
        }
    } else {
        words_from(text, start, from + 1)
    }
}

/// The words of `text`: what is left of `text` when it is cut at every
/// space and the empty pieces are dropped.
pub open spec fn words(text: Seq<char>) -> Seq<Seq<char>> {
    words_from(text, 0, 0)
}

/// The texts of a list of strings.
pub open spec fn texts(strings: Seq<String>) -> Seq<Seq<char>> {
    Seq::new(strings.len(), |i: int| strings[i]@)
}

/// Whether `word` is not empty and holds no space.
pub open spec fn is_word(word: Seq<char>) -> bool {
    word.len() > 0 && forall|k: int| 0 <= k < word.len() ==> word[k] != ' '
}

/// No word is empty and no word holds a space.
pub proof fn lemma_words_are_words(text: Seq<char>, start: int, from: int)
    requires
        0 <= start <= from <= text.len(),
        forall|k: int| start <= k < from ==> text[k] != ' ',
    ensures
        forall|i: int|
            0 <= i < words_from(text, start, from).len() ==> is_word(
                #[trigger] words_from(text, start, from)[i],
            ),
    decreases text.len() - from,
{
    let all = words_from(text, start, from);
    if from >= text.len() {
        if start < from {
            assert(is_word(text.subrange(start, text.len() as int)));
            assert(all == seq![text.subrange(start, text.len() as int)]);
        } else {
            assert(all.len() == 0);
        }
    } else if text[from] == ' ' {
        let rest = words_from(text, from + 1, from + 1);
        lemma_words_are_words(text, from + 1, from + 1);
        if start < from {
            let word = text.subrange(start, from);
            assert(is_word(word));
            assert forall|i: int| 0 <= i < all.len() implies is_word(#[trigger] all[i]) by {
                if i > 0 {
                    assert(all[i] == rest[i - 1]);
                }
            }
        } else {
            assert(all == rest);
        }
    } else {
        lemma_words_are_words(text, start, from + 1);
        assert(all == words_from(text, start, from + 1));
    }
}

/// The configuration of an end-to-end test.
#[derive(Debug, Default, PartialEq, Eq)]
pub struct E2EConfig {
    /// Additional contracts that have to be built before executing the test.
    additional_contracts: String,
    /// The environment to use during test execution. If none is given, the
    /// default environment is used.
    environment: Option<syn::Path>,
    /// The type of the architecture that should be used to run the test.
    backend: Backend,
    /// The URL to the running node.
    node_url: Option<String>,
}

impl E2EConfig {
    /// The text that lists the additional contracts.
    pub closed spec fn spec_additional_contracts(&self) -> Seq<char> {
        self.additional_contracts@
    }

    /// The environment that is configured.
    pub closed spec fn spec_environment(&self) -> Option<syn::Path> {
        self.environment
    }

    /// The backend that is configured.
    pub closed spec fn spec_backend(&self) -> Backend {
        self.backend
    }

    /// The URL that is configured.
    pub closed spec fn spec_node_url(&self) -> Option<String> {
        self.node_url
    }

    /// Puts a configuration together from its parts.
    pub fn new(
        additional_contracts: String,
        environment: Option<syn::Path>,
        backend: Backend,
        node_url: Option<String>,
    ) -> (config: Self)
        ensures
            config.spec_additional_contracts() == additional_contracts@,
            config.spec_environment() == environment,
            config.spec_backend() == backend,
            config.spec_node_url() == node_url,
    {
        E2EConfig { additional_contracts, environment, backend, node_url }
    }

    /// Returns a vector of additional contracts that have to be built and
    /// imported before executing the test: the words of the configured
    /// text, in order.
    pub fn additional_contracts(&self) -> (contracts: Vec<String>)
        ensures
            texts(contracts@) == words(self.spec_additional_contracts()),
            forall|i: int| 0 <= i < contracts@.len() ==> is_word((#[trigger] contracts@[i])@),
    {
        let text = self.additional_contracts.as_str();
        let len = text.unicode_len();
        let mut contracts: Vec<String> = Vec::new();
        let mut start: usize = 0;
        let mut i: usize = 0;
        assert(texts(contracts@) =~= Seq::<Seq<char>>::empty());
        while i < len
            invariant
                start <= i <= len,
                len == text@.len(),
                forall|k: int| start <= k < i ==> text@[k] != ' ',
                words(text@) == texts(contracts@) + words_from(text@, start as int, i as int),
            decreases len - i,
        {
            let ghost before = texts(contracts@);
            if text.get_char(i) == ' ' {
                if start < i {
                    let word = text.substring_char(start, i).to_owned();
                    contracts.push(word);
                    assert(texts(contracts@) =~= before + seq![text@.subrange(start as int, i as int)]);
                }
                start = i + 1;
            }
            i += 1;
        }
        if start < len {
            let ghost before = texts(contracts@);
            let word = text.substring_char(start, len).to_owned();
            contracts.push(word);
            assert(texts(contracts@) =~= before + seq![text@.subrange(start as int, len as int)]);
        }
        proof {
            lemma_words_are_words(text@, 0, 0);
            assert forall|i: int| 0 <= i < contracts@.len() implies is_word(
                (#[trigger] contracts@[i])@,
            ) by {
                assert(texts(contracts@)[i] == contracts@[i]@);
            }
        }
        contracts
    }

    /// Custom environment for the contracts, if specified.
    pub fn environment(&self) -> (environment: Option<syn::Path>)
        ensures
            environment == self.spec_environment(),
    {
        match &self.environment {
            Some(path) => Some(path.clone()),
            None => None,
        }
    }

    /// The type of the architecture that should be used to run the test.
    pub fn backend(&self) -> (backend: Backend)
        ensures
            backend == self.spec_backend(),
    {
        match &self.backend {
            Backend::Full => Backend::Full,
            Backend::RuntimeOnly(RuntimeOnly::Default) => Backend::RuntimeOnly(RuntimeOnly::Default),
            Backend::RuntimeOnly(RuntimeOnly::Runtime(path)) => Backend::RuntimeOnly(
                RuntimeOnly::Runtime(path.clone()),
            ),
        }
    }

    /// The URL to the running node. The configured value is overridden by
    /// `env_url`, the value that the environment of the process gives for
    /// the node; if there is neither, a node is to be spawned per test.
    pub fn node_url(&self, env_url: Option<String>) -> (url: Option<String>)
        ensures
            url == match env_url {
                Some(url) => Some(url),
                None => self.spec_node_url(),
            },
    {
        match env_url {
            Some(url) => Some(url),
            None => match &self.node_url {
                Some(url) => Some(url.clone()),
                None => None,
            },
        }
    }
}

} // verus!
