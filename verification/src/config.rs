//! The model endpoint a product is configured with.

use crate::text::{decimal, decimal_text, quoted, quoted_text, starts_with, trim, blank};
use vstd::prelude::*;

verus! {

/// API wire protocol used by a custom provider.
#[derive(Debug, Clone, Copy, PartialEq, Eq)]
pub enum Protocol {
    ChatCompletions,
    Responses,
    Messages,
}

/// Reasoning effort exposed at the MyBuddy product boundary.
#[derive(Clone, Copy, PartialEq, Eq)]
pub enum Effort {
    /// No reasoning; written `none` on the wire and `None` in debug output.
    Off,
    Minimal,
    Low,
    Medium,
    High,
    Xhigh,
    Max,
}

impl Protocol {
    /// The variant's name, as debug output shows it.
    pub open spec fn variant_text(self) -> Seq<char> {
        match self {
            Protocol::ChatCompletions => "ChatCompletions"@,
            Protocol::Responses => "Responses"@,
            Protocol::Messages => "Messages"@,
        }
    }

    fn variant_name(self) -> (name: &'static str)
        ensures
            name@ == self.variant_text(),
    {
        match self {
            Protocol::ChatCompletions => "ChatCompletions",
            Protocol::Responses => "Responses",
            Protocol::Messages => "Messages",
        }
    }
}

impl Effort {
    /// The level's name, as debug output shows it.
    pub open spec fn variant_text(self) -> Seq<char> {
        match self {
            Effort::Off => "None"@,
            Effort::Minimal => "Minimal"@,
            Effort::Low => "Low"@,
            Effort::Medium => "Medium"@,
            Effort::High => "High"@,
            Effort::Xhigh => "Xhigh"@,
            Effort::Max => "Max"@,
        }
    }

    fn variant_name(self) -> (name: &'static str)
        ensures
            name@ == self.variant_text(),
    {
        match self {
            Effort::Off => "None",
            Effort::Minimal => "Minimal",
            Effort::Low => "Low",
            Effort::Medium => "Medium",
            Effort::High => "High",
            Effort::Xhigh => "Xhigh",
            Effort::Max => "Max",
        }
    }
}

impl core::fmt::Debug for Effort {
    /// Writes the level's name.
    fn fmt(&self, formatter: &mut core::fmt::Formatter<'_>) -> (res: core::fmt::Result) {
        formatter.write_str(self.variant_name())
    }
}

/// Custom model endpoint. Its debug text never shows the key.
pub struct ModelConfig {
    pub base_url: String,
    pub api_key: Option<String>,
    pub model: String,
    pub protocol: Protocol,
    pub context_window: u64,
    pub reasoning_effort: Option<Effort>,
    pub max_retries: u32,
    pub idle_timeout_secs: u64,
}

impl Clone for ModelConfig {
    fn clone(&self) -> (copy: Self)
        ensures
            copy == *self,
    {
        ModelConfig {
            base_url: self.base_url.clone(),
            api_key: self.api_key.clone(),
            model: self.model.clone(),
            protocol: self.protocol,
            context_window: self.context_window,
            reasoning_effort: self.reasoning_effort,
            max_retries: self.max_retries,
            idle_timeout_secs: self.idle_timeout_secs,
        }
    }
}

/// `c` is an ASCII control character, which no HTTP header may hold.
pub open spec fn control_char(c: char) -> bool {
    c < '\u{20}' || c == '\u{7f}'
}

/// Some character of `s` is an ASCII control character.
pub open spec fn has_control_char(s: Seq<char>) -> bool {
    exists|i: int| 0 <= i < s.len() && control_char(#[trigger] s[i])
}

/// Some byte of `bytes` is an ASCII control character.
pub open spec fn has_control_byte(bytes: Seq<u8>) -> bool {
    exists|i: int| 0 <= i < bytes.len() && control_byte(#[trigger] bytes[i])
}

/// `b` is an ASCII control character.
pub open spec fn control_byte(b: u8) -> bool {
    b < 0x20 || b == 0x7f
}

proof fn lemma_char_control(c: char)
    ensures
        has_control_byte(vstd::utf8::encode_scalar(c as u32)) <==> control_char(c),
{
    let v = c as u32;
    let bytes = vstd::utf8::encode_scalar(v);
    if vstd::utf8::has_width_1_encoding(v) {
        assert((v & 0x7f) as u8 == v) by (bit_vector)
            requires
                v <= 0x7f,
        ;
        assert(bytes[0] == v);
    } else {
        assert(0x80u8 | (v & 0x3f) as u8 >= 0x80) by (bit_vector);
        assert(0x80u8 | ((v >> 6) & 0x3f) as u8 >= 0x80) by (bit_vector);
        assert(0x80u8 | ((v >> 12) & 0x3f) as u8 >= 0x80) by (bit_vector);
        assert(0xc0u8 | ((v >> 6) & 0x1f) as u8 >= 0x80) by (bit_vector);
        assert(0xe0u8 | ((v >> 12) & 0x0f) as u8 >= 0x80) by (bit_vector);
        assert(0xf0u8 | ((v >> 18) & 0x7) as u8 >= 0x80) by (bit_vector);
    }
}

/// A text holds a control character exactly if its UTF-8 encoding holds a
/// control byte: multi-byte encodings never contain one.
pub proof fn control_chars_are_control_bytes(s: Seq<char>)
    ensures
        has_control_char(s) <==> has_control_byte(vstd::utf8::encode_utf8(s)),
    decreases s.len(),
{
    if s.len() > 0 {
        let head = vstd::utf8::encode_scalar(s[0] as u32);
        let rest = s.drop_first();
        let tail = vstd::utf8::encode_utf8(rest);
        let bytes = vstd::utf8::encode_utf8(s);
        assert(bytes == head + tail);
        lemma_char_control(s[0]);
        control_chars_are_control_bytes(rest);
        if has_control_char(s) {
            let i = choose|i: int| 0 <= i < s.len() && control_char(#[trigger] s[i]);
            if i == 0 {
                let j = choose|j: int| 0 <= j < head.len() && control_byte(#[trigger] head[j]);
                assert(control_byte(bytes[j]));
            } else {
                assert(control_char(rest[i - 1]));
                let j = choose|j: int| 0 <= j < tail.len() && control_byte(#[trigger] tail[j]);
                assert(control_byte(bytes[head.len() + j]));
            }
        }
        if has_control_byte(bytes) {
            let j = choose|j: int| 0 <= j < bytes.len() && control_byte(#[trigger] bytes[j]);
            if j < head.len() {
                assert(control_byte(head[j]));
                assert(control_char(s[0]));
            } else {
                assert(control_byte(tail[j - head.len()]));
                let i = choose|i: int| 0 <= i < rest.len() && control_char(#[trigger] rest[i]);
                assert(control_char(s[i + 1]));
            }
        }
    }
}

/// Whether `key` holds an ASCII control character.
fn holds_control_char(key: &str) -> (yes: bool)
    ensures
        yes == has_control_char(key@),
{
    let bytes = key.as_bytes();
    let len: usize = bytes.len();
    proof {
        control_chars_are_control_bytes(key@);
    }
    let mut at: usize = 0;
    while at < len
        invariant
            bytes@ == vstd::utf8::encode_utf8(key@),
            has_control_char(key@) <==> has_control_byte(bytes@),
            len == bytes@.len(),
            at <= len,
            forall|i: int| 0 <= i < at ==> !control_byte(#[trigger] bytes@[i]),
        decreases len - at,
    {
        let byte: u8 = bytes[at];
        if byte < 0x20 || byte == 0x7f {
            assert(control_byte(bytes@[at as int]));
            return true;
        }
        at = at + 1;
    }
    false
}

impl ModelConfig {
    /// Why the configuration is refused; `None` if it is accepted. The first
    /// of several reasons counts.
    pub open spec fn fault(self) -> Option<Seq<char>> {
        if !("https://"@.is_prefix_of(self.base_url@) || "http://"@.is_prefix_of(self.base_url@)) {
            Some("base_url must start with http:// or https://"@)
        } else if blank(self.model@) {
            Some("model must not be empty"@)
        } else if self.context_window == 0 {
            Some("context_window must be greater than zero"@)
        } else if self.idle_timeout_secs == 0 {
            Some("idle_timeout_secs must be greater than zero"@)
        } else if self.api_key is Some && has_control_char(self.api_key->0@) {
            Some("api_key contains characters that are not valid in an HTTP header"@)
        } else {
            None
        }
    }

    /// Accepts the configuration, or names the first fault in it.
    pub fn validate(&self) -> (res: Result<(), ConfigError>)
        ensures
            match res {
                Ok(_) => self.fault() is None,
                Err(error) => self.fault() == Some(error@),
            },
    {
        if !(starts_with(self.base_url.as_str(), "https://") || starts_with(
            self.base_url.as_str(),
            "http://",
        )) {
            return Err(ConfigError::new("base_url must start with http:// or https://"));
        }
        if trim(self.model.as_str()).is_empty() {
            return Err(ConfigError::new("model must not be empty"));
        }
        if self.context_window == 0 {
            return Err(ConfigError::new("context_window must be greater than zero"));
        }
        if self.idle_timeout_secs == 0 {
            return Err(ConfigError::new("idle_timeout_secs must be greater than zero"));
        }
        if let Some(key) = &self.api_key {
            if holds_control_char(key.as_str()) {
                return Err(
                    ConfigError::new(
                        "api_key contains characters that are not valid in an HTTP header",
                    ),
                );
            }
        }
        Ok(())
    }

    /// What debug output shows in the place of the key, if there is one.
    pub fn shown_key(&self) -> (shown: Option<&'static str>)
        ensures
            match shown {
                Some(text) => self.api_key is Some && text@ == "[REDACTED]"@,
                None => self.api_key is None,
            },
    {
        match &self.api_key {
            Some(_) => Some("[REDACTED]"),
            None => None,
        }
    }

    /// The text that `debug_text` writes, with `base_url` and `model` for the quoted
    /// base URL and the quoted model.
    pub open spec fn debug_view_with(self, base_url: Seq<char>, model: Seq<char>) -> Seq<char> {
        "ModelConfig { base_url: "@ + base_url + ", api_key: "@ + (if self.api_key is Some {
            "Some(\""@ + "[REDACTED]"@ + "\")"@
        } else {
            "None"@
        }) + ", model: "@ + model + ", protocol: "@ + self.protocol.variant_text()
            + ", context_window: "@ + decimal_text(self.context_window as nat)
            + ", reasoning_effort: "@ + (match self.reasoning_effort {
            Some(effort) => "Some("@ + effort.variant_text() + ")"@,
            None => "None"@,
        }) + ", max_retries: "@ + decimal_text(self.max_retries as nat) + ", idle_timeout_secs: "@
            + decimal_text(self.idle_timeout_secs as nat) + " }"@
    }

    /// The text that `debug_text` writes.
    pub open spec fn debug_view(self) -> Seq<char> {
        self.debug_view_with(quoted_text(self.base_url@), quoted_text(self.model@))
    }

    /// Every field in the form of debug output, but for the key, of which it
    /// shows only whether there is one.
    pub fn debug_text(&self) -> (text: String)
        ensures
            text@ == self.debug_view(),
    {
        self.debug_text_with(
            quoted(self.base_url.as_str()).as_str(),
            quoted(self.model.as_str()).as_str(),
        )
    }

    /// The debug text around `base_url` and `model`, the quoted base URL and the quoted
    /// model.
    pub fn debug_text_with(&self, base_url: &str, model: &str) -> (text: String)
        ensures
            text@ == self.debug_view_with(base_url@, model@),
    {
        let mut text = "ModelConfig { base_url: ".to_owned();
        text.append(base_url);
        text.append(", api_key: ");
        let ghost before = text@;
        match self.shown_key() {
            Some(shown) => {
                text.append("Some(\"");
                text.append(shown);
                text.append("\")");
                assert(text@ =~= before + ("Some(\""@ + "[REDACTED]"@ + "\")"@));
            },
            None => text.append("None"),
        }
        text.append(", model: ");
        text.append(model);
        text.append(", protocol: ");
        text.append(self.protocol.variant_name());
        text.append(", context_window: ");
        text.append(decimal(self.context_window).as_str());
        text.append(", reasoning_effort: ");
        let ghost before = text@;
        match self.reasoning_effort {
            Some(effort) => {
                text.append("Some(");
                text.append(effort.variant_name());
                text.append(")");
                assert(text@ =~= before + ("Some("@ + effort.variant_text() + ")"@));
            },
            None => text.append("None"),
        }
        text.append(", max_retries: ");
        text.append(decimal(self.max_retries as u64).as_str());
        text.append(", idle_timeout_secs: ");
        text.append(decimal(self.idle_timeout_secs).as_str());
        text.append(" }");
        text
    }
}

/// The debug text tells nothing of the key but its presence: configurations that
/// differ only in what their keys hold have the same debug text, however the base URL
/// and the model are quoted.
pub proof fn debug_text_hides_the_key(
    a: ModelConfig,
    b: ModelConfig,
    base_url: Seq<char>,
    model: Seq<char>,
)
    requires
        a.api_key is Some <==> b.api_key is Some,
        b == (ModelConfig { api_key: b.api_key, ..a }),
    ensures
        a.debug_view_with(base_url, model) == b.debug_view_with(base_url, model),
        a.debug_view() == b.debug_view(),
{
}

/// A fault in a model configuration.
#[derive(Debug, Clone, PartialEq, Eq)]
pub struct ConfigError {
    message: String,
}

impl View for ConfigError {
    type V = Seq<char>;

    closed spec fn view(&self) -> Seq<char> {
        self.message@
    }
}

impl ConfigError {
    fn new(message: &str) -> (error: Self)
        ensures
            error@ == message@,
    {
        ConfigError { message: message.to_owned() }
    }

    /// The message to show.
    pub fn to_string(&self) -> (message: String)
        ensures
            message@ == self@,
    {
        self.message.clone()
    }
}

} // verus!
