//! The DeepSeek-style chat backend: configuration, wire types, request
//! construction, and classification of what the server sends back.
//! The network call itself is made by the surrounding application; the
//! functions here compute everything on either side of it.

use vstd::prelude::*;
use vstd::string::StringExecFns;
use crate::json::chat_body_json;
use crate::json::json_ok_of;
use crate::json::json_parses;
use crate::json::json_str_of;
use crate::json::json_string_at;
use crate::text::dec_str;
use crate::text::spec_contains;
use crate::text::str_contains;
use crate::text::u64_to_string;

verus! {

/// Settings for one DeepSeek client: credential, endpoint base,
/// request timeout and model id.
#[derive(Debug)]
pub struct DeepSeekConfig {
    pub api_key: String,
    pub base_url: String,
    pub timeout_seconds: u64,
    pub model: String,
}

impl Clone for DeepSeekConfig {
    fn clone(&self) -> (r: Self)
        ensures
            r == *self,
    {
        DeepSeekConfig {
            api_key: self.api_key.clone(),
            base_url: self.base_url.clone(),
            timeout_seconds: self.timeout_seconds,
            model: self.model.clone(),
        }
    }
}

impl Default for DeepSeekConfig {
    /// An empty credential, the public endpoint, a 30 second timeout
    /// and the standard chat model.
    fn default() -> (r: Self)
        ensures
            r.api_key@ == Seq::<char>::empty(),
            r.base_url@ == "https://api.deepseek.com"@,
            r.timeout_seconds == 30,
            r.model@ == "deepseek-chat"@,
    {
        DeepSeekConfig {
            api_key: String::new(),
            base_url: "https://api.deepseek.com".to_owned(),
            timeout_seconds: 30,
            model: "deepseek-chat".to_owned(),
        }
    }
}

/// One turn of a conversation as the wire sees it: a role and a text.
#[derive(Debug)]
pub struct ChatMessage {
    pub role: String,
    pub content: String,
}

impl View for ChatMessage {
    type V = (Seq<char>, Seq<char>);

    open spec fn view(&self) -> (Seq<char>, Seq<char>) {
        (self.role@, self.content@)
    }
}

impl Clone for ChatMessage {
    fn clone(&self) -> (r: Self)
        ensures
            r == *self,
    {
        ChatMessage { role: self.role.clone(), content: self.content.clone() }
    }
}

/// The role/content pairs of a sequence of messages.
pub open spec fn msgs_view(s: Seq<ChatMessage>) -> Seq<(Seq<char>, Seq<char>)> {
    s.map_values(|m: ChatMessage| m@)
}

/// A chat-completion request before serialisation.  The sampling
/// temperature is kept in hundredths, so 70 stands for 0.7.
#[derive(Debug)]
pub struct ChatRequest {
    pub model: String,
    pub messages: Vec<ChatMessage>,
    pub temperature_hundredths: u32,
    pub max_tokens: Option<i32>,
    pub stream: bool,
}

impl ChatRequest {
    /// The request body sent over the wire.
    pub open spec fn spec_json(self) -> Seq<char> {
        chat_body_json(
            self.model@,
            msgs_view(self.messages@),
            self.temperature_hundredths as nat,
            match self.max_tokens {
                Some(n) => Some(n as int),
                None => None,
            },
            self.stream,
        )
    }

    /// Serialises the request as its JSON body.
    pub fn to_json(&self) -> (r: String)
        ensures
            r@ == self.spec_json(),
    {
        crate::json::encode_chat_body(
            self.model.as_str(),
            &self.messages,
            self.temperature_hundredths,
            self.max_tokens,
            self.stream,
        )
    }
}

/// A non-streaming completion body, already decoded.
#[derive(Debug)]
pub struct ChatResponse {
    pub id: String,
    pub object: String,
    pub created: i64,
    pub model: String,
    pub choices: Vec<Choice>,
    pub usage: Usage,
}

impl ChatResponse {
    /// The text of the first candidate completion; a response with no
    /// candidate carries no answer.
    pub fn first_content(&self) -> (r: Option<&String>)
        ensures
            (match r {
                Some(s) => self.choices@.len() > 0 && s@ == self.choices@[0].message.content@,
                None => self.choices@.len() == 0,
            }),
    {
        if self.choices.len() > 0 {
            Some(&self.choices[0].message.content)
        } else {
            None
        }
    }
}

/// One candidate completion of a non-streaming response.
#[derive(Debug)]
pub struct Choice {
    pub index: i32,
    pub message: MessageResponse,
    pub finish_reason: String,
}

/// The message inside one candidate completion.
#[derive(Debug)]
pub struct MessageResponse {
    pub role: String,
    pub content: String,
}

/// Token accounting attached to a response.
#[derive(Debug)]
pub struct Usage {
    pub prompt_tokens: i32,
    pub completion_tokens: i32,
    pub total_tokens: i32,
}

/// One decoded streaming event.
#[derive(Debug)]
pub struct StreamResponse {
    pub id: String,
    pub object: String,
    pub created: i64,
    pub model: String,
    pub choices: Vec<StreamChoice>,
}

impl StreamResponse {
    /// The delta text of the first choice of a streaming event, if the
    /// event carries one.
    pub fn first_delta(&self) -> (r: Option<&String>)
        ensures
            (match r {
                Some(s) => self.choices@.len() > 0 && (self.choices@[0].delta.content matches Some(
                    c,
                ) && s@ == c@),
                None => self.choices@.len() == 0 || self.choices@[0].delta.content is None,
            }),
    {
        if self.choices.len() > 0 {
            match &self.choices[0].delta.content {
                Some(c) => Some(c),
                None => None,
            }
        } else {
            None
        }
    }
}

/// One choice inside a streaming event.
#[derive(Debug)]
pub struct StreamChoice {
    pub index: i32,
    pub delta: StreamDelta,
    pub finish_reason: Option<String>,
}

/// The incremental fragment inside a streaming choice.
#[derive(Debug)]
pub struct StreamDelta {
    pub role: Option<String>,
    pub content: Option<String>,
}

/// What can go wrong on one client call: a bad credential at
/// construction, an I/O fault, a timeout, a server-side rejection, or
/// a body that does not match the expected shape.
#[derive(Debug)]
pub enum DeepSeekError {
    RequestError(String),
    ParseError(String),
    ApiError(String),
    Timeout(String),
    ConfigError(String),
}

impl DeepSeekError {
    /// The rendering shown for the error.
    pub open spec fn spec_message(self) -> Seq<char> {
        match self {
            DeepSeekError::RequestError(m) => "Request error: "@ + m@,
            DeepSeekError::ParseError(m) => "Parse error: "@ + m@,
            DeepSeekError::ApiError(m) => "API error: "@ + m@,
            DeepSeekError::Timeout(m) => "Timeout: "@ + m@,
            DeepSeekError::ConfigError(m) => "Config error: "@ + m@,
        }
    }

    /// Renders the error for display.
    pub fn message(&self) -> (r: String)
        ensures
            r@ == self.spec_message(),
    {
        match self {
            DeepSeekError::RequestError(m) => {
                let mut s = "Request error: ".to_owned();
                s.append(m.as_str());
                s
            },
            DeepSeekError::ParseError(m) => {
                let mut s = "Parse error: ".to_owned();
                s.append(m.as_str());
                s
            },
            DeepSeekError::ApiError(m) => {
                let mut s = "API error: ".to_owned();
                s.append(m.as_str());
                s
            },
            DeepSeekError::Timeout(m) => {
                let mut s = "Timeout: ".to_owned();
                s.append(m.as_str());
                s
            },
            DeepSeekError::ConfigError(m) => {
                let mut s = "Config error: ".to_owned();
                s.append(m.as_str());
                s
            },
        }
    }
}

/// The text a successful completion body answers with: the string at
/// `choices[0].message.content`, if the body parses and carries one.
pub open spec fn reply_of(body: Seq<char>) -> Option<Seq<char>> {
    json_str_of(vstd::utf8::encode_utf8(body), "/choices/0/message/content"@)
}

/// Whether a completion body is well-formed JSON at all.
pub open spec fn body_parses(body: Seq<char>) -> bool {
    json_ok_of(vstd::utf8::encode_utf8(body))
}

/// A client for the DeepSeek backend.  It holds the settings; the
/// application drives the actual HTTP exchange with what the methods
/// here compute.
#[derive(Debug)]
pub struct DeepSeekClient {
    config: DeepSeekConfig,
}

impl View for DeepSeekClient {
    type V = DeepSeekConfig;

    closed spec fn view(&self) -> DeepSeekConfig {
        self.config
    }
}

impl Clone for DeepSeekClient {
    fn clone(&self) -> (r: Self)
        ensures
            r@ == self@,
    {
        DeepSeekClient { config: self.config.clone() }
    }
}

impl DeepSeekClient {
    /// Accepts the settings, or refuses an empty credential before
    /// anything else happens.  No request is attempted here or in any
    /// other method of this type.
    pub fn new(config: DeepSeekConfig) -> (r: Result<Self, DeepSeekError>)
        ensures
            r is Err <==> config.api_key@.len() == 0,
            (match r {
                Ok(c) => c@ == config,
                Err(e) => e matches DeepSeekError::ConfigError(m) && m@
                    == "API key cannot be empty"@,
            }),
    {
        if config.api_key.as_str().is_empty() {
            return Err(DeepSeekError::ConfigError("API key cannot be empty".to_owned()));
        }
        Ok(DeepSeekClient { config })
    }

    /// A client with the given credential and every other setting at
    /// its default.
    pub fn with_api_key(api_key: &str) -> (r: Result<Self, DeepSeekError>)
        ensures
            r is Err <==> api_key@.len() == 0,
            (match r {
                Ok(c) => c@.api_key@ == api_key@ && c@.base_url@ == "https://api.deepseek.com"@
                    && c@.timeout_seconds == 30 && c@.model@ == "deepseek-chat"@,
                Err(e) => e matches DeepSeekError::ConfigError(m) && m@
                    == "API key cannot be empty"@,
            }),
    {
        let mut config = DeepSeekConfig::default();
        config.api_key = api_key.to_owned();
        Self::new(config)
    }

    /// The settings in force.
    pub fn get_config(&self) -> (r: &DeepSeekConfig)
        ensures
            *r == self@,
    {
        &self.config
    }

    /// Changes the model id; nothing else moves.
    pub fn set_model(&mut self, model: &str)
        ensures
            final(self)@.model@ == model@,
            final(self)@.api_key == old(self)@.api_key,
            final(self)@.base_url == old(self)@.base_url,
            final(self)@.timeout_seconds == old(self)@.timeout_seconds,
    {
        self.config.model = model.to_owned();
    }

    /// The completions endpoint: the configured base joined with the
    /// fixed path.
    pub fn endpoint_url(&self) -> (r: String)
        ensures
            r@ == self@.base_url@ + "/v1/chat/completions"@,
    {
        let mut u = self.config.base_url.clone();
        u.append("/v1/chat/completions");
        u
    }

    /// The authorization header value: a bearer token built from the
    /// credential.
    pub fn auth_header(&self) -> (r: String)
        ensures
            r@ == "Bearer "@ + self@.api_key@,
    {
        let mut h = "Bearer ".to_owned();
        h.append(self.config.api_key.as_str());
        h
    }

    /// Assembles the request envelope: the configured model id, the
    /// messages, the temperature (0.7 unless given), the optional token
    /// cap and the stream flag.
    pub fn build_request(
        &self,
        messages: Vec<ChatMessage>,
        temperature_hundredths: Option<u32>,
        max_tokens: Option<i32>,
        stream: bool,
    ) -> (r: ChatRequest)
        ensures
            r.model@ == self@.model@,
            r.messages@ == messages@,
            r.temperature_hundredths == (match temperature_hundredths {
                Some(t) => t,
                None => 70u32,
            }),
            r.max_tokens == max_tokens,
            r.stream == stream,
    {
        ChatRequest {
            model: self.config.model.clone(),
            messages,
            temperature_hundredths: match temperature_hundredths {
                Some(t) => t,
                None => 70,
            },
            max_tokens,
            stream,
        }
    }

    /// Classifies a complete server response.  A non-success status is
    /// a server-side rejection carrying the status and the raw body; a
    /// success body answers with its first choice, and failing that is
    /// a protocol error, with the two shapes of protocol failure told
    /// apart.
    pub fn response_outcome(&self, status: u16, body: &str) -> (r: Result<String, DeepSeekError>)
        ensures
            (if 200 <= status < 300 {
                match reply_of(body@) {
                    Some(c) => r matches Ok(s) && s@ == c,
                    None => r matches Err(e) && e matches DeepSeekError::ParseError(m) && m@ == (
                    if body_parses(body@) {
                        "No choices in response"@
                    } else {
                        "Failed to parse response"@
                    }),
                }
            } else {
                r matches Err(e) && e matches DeepSeekError::ApiError(m) && m@ == "HTTP "@
                    + dec_str(status as nat) + ": "@ + body@
            }),
    {
        if !(200 <= status && status < 300) {
            let mut m = "HTTP ".to_owned();
            let s = u64_to_string(status as u64);
            m.append(s.as_str());
            m.append(": ");
            m.append(body);
            return Err(DeepSeekError::ApiError(m));
        }
        match json_string_at(body.as_bytes(), "/choices/0/message/content") {
            Some(c) => Ok(c),
            None => {
                if json_parses(body.as_bytes()) {
                    Err(DeepSeekError::ParseError("No choices in response".to_owned()))
                } else {
                    Err(DeepSeekError::ParseError("Failed to parse response".to_owned()))
                }
            },
        }
    }

    /// Classifies a failure to reach the server at all: a timeout gets
    /// its own kind, carrying the configured limit; anything else is an
    /// I/O fault carrying the transport's description.
    pub fn send_failure(&self, timed_out: bool, detail: &str) -> (r: DeepSeekError)
        ensures
            (if timed_out {
                r matches DeepSeekError::Timeout(m) && m@ == "Request timeout after "@ + dec_str(
                    self@.timeout_seconds as nat,
                ) + " seconds"@
            } else {
                r matches DeepSeekError::RequestError(m) && m@ == "Failed to send request: "@
                    + detail@
            }),
    {
        if timed_out {
            let mut m = "Request timeout after ".to_owned();
            let s = u64_to_string(self.config.timeout_seconds);
            m.append(s.as_str());
            m.append(" seconds");
            DeepSeekError::Timeout(m)
        } else {
            let mut m = "Failed to send request: ".to_owned();
            m.append(detail);
            DeepSeekError::RequestError(m)
        }
    }

    /// The message list for a one-shot exchange: the optional system
    /// prompt first, then the user's text.
    pub fn simple_chat_messages(user_message: &str, system_prompt: Option<&str>) -> (r: Vec<
        ChatMessage,
    >)
        ensures
            (match system_prompt {
                Some(p) => r@.len() == 2 && r@[0]@ == ("system"@, p@) && r@[1]@ == (
                    "user"@,
                    user_message@,
                ),
                None => r@.len() == 1 && r@[0]@ == ("user"@, user_message@),
            }),
    {
        let mut messages: Vec<ChatMessage> = Vec::new();
        if let Some(p) = system_prompt {
            messages.push(create_system_message(p));
        }
        messages.push(create_user_message(user_message));
        messages
    }

    /// The fixed probe sent to test a connection.
    pub fn connection_probe() -> (r: ChatMessage)
        ensures
            r@ == ("user"@, "Hello, respond with 'OK' if you can hear me."@),
    {
        create_user_message("Hello, respond with 'OK' if you can hear me.")
    }

    /// The verdict on a probe's outcome: connected when the call
    /// succeeded with any non-empty text (or one naming OK), and false
    /// on every error, which is swallowed, never passed on.
    pub fn connection_verdict(outcome: &Result<String, DeepSeekError>) -> (r: bool)
        ensures
            r == (match outcome {
                Ok(s) => spec_contains(s@, "OK"@) || s@.len() > 0,
                Err(_) => false,
            }),
    {
        match outcome {
            Ok(resp) => str_contains(resp.as_str(), "OK") || !resp.as_str().is_empty(),
            Err(_) => false,
        }
    }
}

/// A system-role message.
pub fn create_system_message(content: &str) -> (r: ChatMessage)
    ensures
        r@ == ("system"@, content@),
{
    ChatMessage { role: "system".to_owned(), content: content.to_owned() }
}

/// A user-role message.
pub fn create_user_message(content: &str) -> (r: ChatMessage)
    ensures
        r@ == ("user"@, content@),
{
    ChatMessage { role: "user".to_owned(), content: content.to_owned() }
}

/// An assistant-role message.
pub fn create_assistant_message(content: &str) -> (r: ChatMessage)
    ensures
        r@ == ("assistant"@, content@),
{
    ChatMessage { role: "assistant".to_owned(), content: content.to_owned() }
}

} // verus!
