//! The values that the state files hold.

use vstd::prelude::*;

verus! {

/// The configuration of the assistant.
#[derive(Debug, Clone, PartialEq, Eq)]
pub struct AiConfig {
    /// The model's name.
    pub model: String,
    /// The address of the service.
    pub base_url: String,
    /// The key that the service asks for.
    pub api_key: String,
    /// The sampling temperature, as the bits of a single-precision number;
    /// `None` where none is set.
    pub temperature_bits: Option<u32>,
    /// The longest answer to ask for; `None` where no limit is set.
    pub max_tokens: Option<u32>,
    /// Whether the reader draws boxes round what the assistant marks.
    pub show_boxes: bool,
}

/// An `AiConfig` as a mathematical value.
pub struct AiConfigView {
    pub model: Seq<char>,
    pub base_url: Seq<char>,
    pub api_key: Seq<char>,
    pub temperature_bits: Option<u32>,
    pub max_tokens: Option<u32>,
    pub show_boxes: bool,
}

impl View for AiConfig {
    type V = AiConfigView;

    open spec fn view(&self) -> AiConfigView {
        AiConfigView {
            model: self.model@,
            base_url: self.base_url@,
            api_key: self.api_key@,
            temperature_bits: self.temperature_bits,
            max_tokens: self.max_tokens,
            show_boxes: self.show_boxes,
        }
    }
}

/// The configuration of a first run: nothing set, boxes shown.
pub open spec fn initial_config() -> AiConfigView {
    AiConfigView {
        model: Seq::empty(),
        base_url: Seq::empty(),
        api_key: Seq::empty(),
        temperature_bits: None,
        max_tokens: None,
        show_boxes: true,
    }
}

/// Whether boxes are shown where a stored configuration does not say.
pub fn default_show_boxes() -> (r: bool)
    ensures
        r,
{
    true
}

impl Default for AiConfig {
    fn default() -> (r: Self)
        ensures
            r@ == initial_config(),
    {
        AiConfig {
            model: String::new(),
            base_url: String::new(),
            api_key: String::new(),
            temperature_bits: None,
            max_tokens: None,
            show_boxes: default_show_boxes(),
        }
    }
}

/// The assistant's configuration as its file holds it: each field may be
/// absent on its own.
#[derive(Debug, Clone, PartialEq, Eq)]
pub struct StoredAiConfig {
    pub model: Option<String>,
    pub base_url: Option<String>,
    pub api_key: Option<String>,
    pub temperature_bits: Option<u32>,
    pub max_tokens: Option<u32>,
    pub show_boxes: Option<bool>,
}

/// A `StoredAiConfig` as a mathematical value.
pub struct StoredAiConfigView {
    pub model: Option<Seq<char>>,
    pub base_url: Option<Seq<char>>,
    pub api_key: Option<Seq<char>>,
    pub temperature_bits: Option<u32>,
    pub max_tokens: Option<u32>,
    pub show_boxes: Option<bool>,
}

/// The characters of a text that may be absent.
pub open spec fn text_of(field: Option<String>) -> Option<Seq<char>> {
    match field {
        Some(text) => Some(text@),
        None => None,
    }
}

/// The text that an absent text field stands for is the empty one.
pub open spec fn text_or_empty(field: Option<Seq<char>>) -> Seq<char> {
    match field {
        Some(text) => text,
        None => Seq::empty(),
    }
}

impl View for StoredAiConfig {
    type V = StoredAiConfigView;

    open spec fn view(&self) -> StoredAiConfigView {
        StoredAiConfigView {
            model: text_of(self.model),
            base_url: text_of(self.base_url),
            api_key: text_of(self.api_key),
            temperature_bits: self.temperature_bits,
            max_tokens: self.max_tokens,
            show_boxes: self.show_boxes,
        }
    }
}

/// The record of a file that holds no field at all.
pub open spec fn empty_record() -> StoredAiConfigView {
    StoredAiConfigView {
        model: None,
        base_url: None,
        api_key: None,
        temperature_bits: None,
        max_tokens: None,
        show_boxes: None,
    }
}

/// The configuration that a stored record stands for: an absent text is
/// empty, an absent temperature or limit is not set, and boxes are shown
/// unless the record says otherwise.
pub open spec fn config_of(stored: StoredAiConfigView) -> AiConfigView {
    AiConfigView {
        model: text_or_empty(stored.model),
        base_url: text_or_empty(stored.base_url),
        api_key: text_or_empty(stored.api_key),
        temperature_bits: stored.temperature_bits,
        max_tokens: stored.max_tokens,
        show_boxes: match stored.show_boxes {
            Some(shown) => shown,
            None => true,
        },
    }
}

/// The record that is written for a configuration: every text and the
/// switch present, the temperature and the limit where they are set.
pub open spec fn stored_of(config: AiConfigView) -> StoredAiConfigView {
    StoredAiConfigView {
        model: Some(config.model),
        base_url: Some(config.base_url),
        api_key: Some(config.api_key),
        temperature_bits: config.temperature_bits,
        max_tokens: config.max_tokens,
        show_boxes: Some(config.show_boxes),
    }
}

/// A configuration that is written and read back is the configuration
/// that was written.
pub proof fn lemma_config_round_trip(config: AiConfigView)
    ensures
        config_of(stored_of(config)) == config,
{
}

/// A record without any field stands for the configuration of a first
/// run, and so does the record written for that configuration.
pub proof fn lemma_empty_record_is_initial()
    ensures
        config_of(empty_record()) == initial_config(),
        config_of(stored_of(initial_config())) == initial_config(),
{
}

fn text_or_default(field: Option<String>) -> (r: String)
    ensures
        r@ == text_or_empty(text_of(field)),
{
    match field {
        Some(text) => text,
        None => String::new(),
    }
}

impl AiConfig {
    /// Reads a stored record, with the default for each absent field.
    pub fn from_stored(stored: StoredAiConfig) -> (r: AiConfig)
        ensures
            r@ == config_of(stored@),
    {
        AiConfig {
            model: text_or_default(stored.model),
            base_url: text_or_default(stored.base_url),
            api_key: text_or_default(stored.api_key),
            temperature_bits: stored.temperature_bits,
            max_tokens: stored.max_tokens,
            show_boxes: match stored.show_boxes {
                Some(shown) => shown,
                None => default_show_boxes(),
            },
        }
    }

    /// The record to write for this configuration.
    pub fn into_stored(self) -> (r: StoredAiConfig)
        ensures
            r@ == stored_of(self@),
    {
        StoredAiConfig {
            model: Some(self.model),
            base_url: Some(self.base_url),
            api_key: Some(self.api_key),
            temperature_bits: self.temperature_bits,
            max_tokens: self.max_tokens,
            show_boxes: Some(self.show_boxes),
        }
    }
}

/// The pointer to the document that was opened last. The path is kept as
/// the host gave it; it is trimmed when it is read back.
#[derive(Debug, Clone, PartialEq, Eq)]
pub struct LastOpened {
    pub path: String,
}

impl Default for LastOpened {
    fn default() -> (r: Self)
        ensures
            r.path@ == Seq::<char>::empty(),
    {
        LastOpened { path: String::new() }
    }
}

} // verus!
