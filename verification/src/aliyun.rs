//! The AliYun-style chat backend: the Qwen model family, its
//! configuration and wire shapes, request construction, and
//! classification of what the server sends back.  As with the other
//! backend, the network call itself is the application's; everything
//! on either side of it is computed here.

use vstd::prelude::*;
use vstd::string::StringExecFns;
use crate::deepseek::ChatMessage;
use crate::deepseek::create_system_message;
use crate::deepseek::create_user_message;
use crate::deepseek::msgs_view;
use crate::deepseek::body_parses;
use crate::deepseek::reply_of;
use crate::i18n::Language;
use crate::json::chat_body_json;
use crate::json::json_parses;
use crate::json::json_string_at;
use crate::text::dec_str;
use crate::text::spec_contains;
use crate::text::str_contains;
use crate::text::u64_to_string;

verus! {

/// The Qwen model family offered by this backend.
#[derive(Debug, Clone, PartialEq, Copy, Eq, Hash, Structural)]
pub enum AliYunModelType {
    QwenTurbo,
    QwenPlus,
    QwenMax,
    QwenMaxLongContext,
}

/// The wire id of each model of the family.
pub open spec fn wire_name_of(t: AliYunModelType) -> Seq<char> {
    match t {
        AliYunModelType::QwenTurbo => "qwen-turbo"@,
        AliYunModelType::QwenPlus => "qwen-plus"@,
        AliYunModelType::QwenMax => "qwen-max"@,
        AliYunModelType::QwenMaxLongContext => "qwen-max-longcontext"@,
    }
}

/// The interface name of each model, per language.
pub open spec fn display_name_of(t: AliYunModelType, language: Language) -> Seq<char> {
    match t {
        AliYunModelType::QwenTurbo => (match language {
            Language::Chinese => "通义千问-Turbo"@,
            Language::English => "Qwen-Turbo"@,
        }),
        AliYunModelType::QwenPlus => (match language {
            Language::Chinese => "通义千问-Plus"@,
            Language::English => "Qwen-Plus"@,
        }),
        AliYunModelType::QwenMax => (match language {
            Language::Chinese => "通义千问-Max"@,
            Language::English => "Qwen-Max"@,
        }),
        AliYunModelType::QwenMaxLongContext => (match language {
            Language::Chinese => "通义千问-长文本"@,
            Language::English => "Qwen-Max-LongContext"@,
        }),
    }
}

/// The interface description of each model, per language.
pub open spec fn description_of(t: AliYunModelType, language: Language) -> Seq<char> {
    match t {
        AliYunModelType::QwenTurbo => (match language {
            Language::Chinese => "轻量版，响应速度快，适合通用对话场景"@,
            Language::English => "Lightweight version, fast response, suitable for general conversation"@,
        }),
        AliYunModelType::QwenPlus => (match language {
            Language::Chinese => "增强版，适合复杂任务和长文本处理"@,
            Language::English => "Enhanced version, suitable for complex tasks and long text"@,
        }),
        AliYunModelType::QwenMax => (match language {
            Language::Chinese => "最强版本，适用于高需求专业任务"@,
            Language::English => "Maximum version, strongest capabilities for professional tasks"@,
        }),
        AliYunModelType::QwenMaxLongContext => (match language {
            Language::Chinese => "支持128K长文本，适合长文档处理"@,
            Language::English => "Supports 128K long context, suitable for long documents"@,
        }),
    }
}

impl AliYunModelType {
    /// The model id sent on the wire.
    pub fn name(&self) -> (r: &'static str)
        ensures
            r@ == wire_name_of(*self),
    {
        match self {
            AliYunModelType::QwenTurbo => "qwen-turbo",
            AliYunModelType::QwenPlus => "qwen-plus",
            AliYunModelType::QwenMax => "qwen-max",
            AliYunModelType::QwenMaxLongContext => "qwen-max-longcontext",
        }
    }

    /// The name shown in the interface, per language.
    pub fn display_name(&self, language: Language) -> (r: String)
        ensures
            r@ == display_name_of(*self, language),
    {
        match self {
            AliYunModelType::QwenTurbo => match language {
                Language::Chinese => "通义千问-Turbo".to_owned(),
                Language::English => "Qwen-Turbo".to_owned(),
            },
            AliYunModelType::QwenPlus => match language {
                Language::Chinese => "通义千问-Plus".to_owned(),
                Language::English => "Qwen-Plus".to_owned(),
            },
            AliYunModelType::QwenMax => match language {
                Language::Chinese => "通义千问-Max".to_owned(),
                Language::English => "Qwen-Max".to_owned(),
            },
            AliYunModelType::QwenMaxLongContext => match language {
                Language::Chinese => "通义千问-长文本".to_owned(),
                Language::English => "Qwen-Max-LongContext".to_owned(),
            },
        }
    }

    /// A short description of the model, per language.
    pub fn description(&self, language: Language) -> (r: String)
        ensures
            r@ == description_of(*self, language),
    {
        match self {
            AliYunModelType::QwenTurbo => match language {
                Language::Chinese => "轻量版，响应速度快，适合通用对话场景".to_owned(),
                Language::English => "Lightweight version, fast response, suitable for general conversation".to_owned(),
            },
            AliYunModelType::QwenPlus => match language {
                Language::Chinese => "增强版，适合复杂任务和长文本处理".to_owned(),
                Language::English => "Enhanced version, suitable for complex tasks and long text".to_owned(),
            },
            AliYunModelType::QwenMax => match language {
                Language::Chinese => "最强版本，适用于高需求专业任务".to_owned(),
                Language::English => "Maximum version, strongest capabilities for professional tasks".to_owned(),
            },
            AliYunModelType::QwenMaxLongContext => match language {
                Language::Chinese => "支持128K长文本，适合长文档处理".to_owned(),
                Language::English => "Supports 128K long context, suitable for long documents".to_owned(),
            },
        }
    }

    /// The fixed completions endpoint of this backend.
    pub fn endpoint(&self) -> (r: &'static str)
        ensures
            r@ == "https://dashscope.aliyuncs.com/compatible-mode/v1/chat/completions"@,
    {
        "https://dashscope.aliyuncs.com/compatible-mode/v1/chat/completions"
    }

    /// The token cap suited to the model.
    pub fn max_tokens(&self) -> (r: i32)
        ensures
            r == (match self {
                AliYunModelType::QwenTurbo => 2000i32,
                AliYunModelType::QwenPlus => 6000i32,
                AliYunModelType::QwenMax => 8000i32,
                AliYunModelType::QwenMaxLongContext => 8000i32,
            }),
    {
        match self {
            AliYunModelType::QwenTurbo => 2000,
            AliYunModelType::QwenPlus => 6000,
            AliYunModelType::QwenMax => 8000,
            AliYunModelType::QwenMaxLongContext => 8000,
        }
    }

    /// Every model of the family, in catalog order.
    pub fn all() -> (r: Vec<Self>)
        ensures
            r@ == seq![
                AliYunModelType::QwenTurbo,
                AliYunModelType::QwenPlus,
                AliYunModelType::QwenMax,
                AliYunModelType::QwenMaxLongContext,
            ],
    {
        let mut v: Vec<AliYunModelType> = Vec::new();
        v.push(AliYunModelType::QwenTurbo);
        v.push(AliYunModelType::QwenPlus);
        v.push(AliYunModelType::QwenMax);
        v.push(AliYunModelType::QwenMaxLongContext);
        proof {
            assert(v@ =~= seq![
                AliYunModelType::QwenTurbo,
                AliYunModelType::QwenPlus,
                AliYunModelType::QwenMax,
                AliYunModelType::QwenMaxLongContext,
            ]);
        }
        v
    }
}

/// Settings for one AliYun client: credential, chosen model, timeout
/// and endpoint base.
#[derive(Debug)]
pub struct AliYunConfig {
    pub api_key: String,
    pub model_type: AliYunModelType,
    pub timeout_seconds: u64,
    pub base_url: String,
}

impl Clone for AliYunConfig {
    fn clone(&self) -> (r: Self)
        ensures
            r == *self,
    {
        AliYunConfig {
            api_key: self.api_key.clone(),
            model_type: self.model_type,
            timeout_seconds: self.timeout_seconds,
            base_url: self.base_url.clone(),
        }
    }
}

impl Default for AliYunConfig {
    /// An empty credential, the lightweight model, a 30 second timeout
    /// and the public endpoint.
    fn default() -> (r: Self)
        ensures
            r.api_key@ == Seq::<char>::empty(),
            r.model_type == AliYunModelType::QwenTurbo,
            r.timeout_seconds == 30,
            r.base_url@ == "https://dashscope.aliyuncs.com"@,
    {
        AliYunConfig {
            api_key: String::new(),
            model_type: AliYunModelType::QwenTurbo,
            timeout_seconds: 30,
            base_url: "https://dashscope.aliyuncs.com".to_owned(),
        }
    }
}

/// A chat-completion request for this backend; the same shape as the
/// other backend's, with the temperature kept in hundredths.
#[derive(Debug)]
pub struct AliYunChatRequest {
    pub model: String,
    pub messages: Vec<ChatMessage>,
    pub temperature_hundredths: u32,
    pub max_tokens: Option<i32>,
    pub stream: bool,
}

impl AliYunChatRequest {
    /// The request body sent over the wire.
    pub open spec fn spec_json(self) -> Seq<char> {
        chat_body_json(
            self.model@,
            msgs_view(self.messages@),
            self.temperature_hundredths as nat,
            match self.max_tokens {
                Some(n) => Some(n as int),
                None => None,
            },
            self.stream,
        )
    }

    /// Serialises the request as its JSON body.
    pub fn to_json(&self) -> (r: String)
        ensures
            r@ == self.spec_json(),
    {
        crate::json::encode_chat_body(
            self.model.as_str(),
            &self.messages,
            self.temperature_hundredths,
            self.max_tokens,
            self.stream,
        )
    }
}

/// A non-streaming completion body, already decoded.
#[derive(Debug)]
pub struct AliYunChatResponse {
    pub id: String,
    pub object: String,
    pub created: i64,
    pub model: String,
    pub choices: Vec<Choice>,
    pub usage: Usage,
}

impl AliYunChatResponse {
    /// The text of the first candidate completion; a response with no
    /// candidate carries no answer.
    pub fn first_content(&self) -> (r: Option<&String>)
        ensures
            (match r {
                Some(s) => self.choices@.len() > 0 && s@ == self.choices@[0].message.content@,
                None => self.choices@.len() == 0,
            }),
    {
        if self.choices.len() > 0 {
            Some(&self.choices[0].message.content)
        } else {
            None
        }
    }
}

/// One candidate completion of a non-streaming response.
#[derive(Debug)]
pub struct Choice {
    pub index: i32,
    pub message: MessageResponse,
    pub finish_reason: String,
}

/// The message inside one candidate completion.
#[derive(Debug)]
pub struct MessageResponse {
    pub role: String,
    pub content: String,
}

/// Token accounting attached to a response.
#[derive(Debug)]
pub struct Usage {
    pub prompt_tokens: i32,
    pub completion_tokens: i32,
    pub total_tokens: i32,
}

/// What can go wrong on one client call, as for the other backend.
#[derive(Debug)]
pub enum AliYunError {
    RequestError(String),
    ParseError(String),
    ApiError(String),
    Timeout(String),
    ConfigError(String),
}

impl AliYunError {
    /// The rendering shown for the error.
    pub open spec fn spec_message(self) -> Seq<char> {
        match self {
            AliYunError::RequestError(m) => "Request error: "@ + m@,
            AliYunError::ParseError(m) => "Parse error: "@ + m@,
            AliYunError::ApiError(m) => "API error: "@ + m@,
            AliYunError::Timeout(m) => "Timeout: "@ + m@,
            AliYunError::ConfigError(m) => "Config error: "@ + m@,
        }
    }

    /// Renders the error for display.
    pub fn message(&self) -> (r: String)
        ensures
            r@ == self.spec_message(),
    {
        match self {
            AliYunError::RequestError(m) => {
                let mut s = "Request error: ".to_owned();
                s.append(m.as_str());
                s
            },
            AliYunError::ParseError(m) => {
                let mut s = "Parse error: ".to_owned();
                s.append(m.as_str());
                s
            },
            AliYunError::ApiError(m) => {
                let mut s = "API error: ".to_owned();
                s.append(m.as_str());
                s
            },
            AliYunError::Timeout(m) => {
                let mut s = "Timeout: ".to_owned();
                s.append(m.as_str());
                s
            },
            AliYunError::ConfigError(m) => {
                let mut s = "Config error: ".to_owned();
                s.append(m.as_str());
                s
            },
        }
    }
}

/// The system prompt that pins the answer's language.
pub open spec fn language_prompt(language: Language) -> Seq<char> {
    match language {
        Language::Chinese => "请使用中文回答。"@,
        Language::English => "Please respond in English only."@,
    }
}

/// A client for the AliYun backend.  It holds the settings; the
/// application drives the actual HTTP exchange with what the methods
/// here compute.
#[derive(Debug)]
pub struct AliYunClient {
    config: AliYunConfig,
}

impl View for AliYunClient {
    type V = AliYunConfig;

    closed spec fn view(&self) -> AliYunConfig {
        self.config
    }
}

impl Clone for AliYunClient {
    fn clone(&self) -> (r: Self)
        ensures
            r@ == self@,
    {
        AliYunClient { config: self.config.clone() }
    }
}

impl AliYunClient {
    /// Accepts the settings, or refuses an empty credential before
    /// anything else happens.  No request is attempted here or in any
    /// other method of this type.
    pub fn new(config: AliYunConfig) -> (r: Result<Self, AliYunError>)
        ensures
            r is Err <==> config.api_key@.len() == 0,
            (match r {
                Ok(c) => c@ == config,
                Err(e) => e matches AliYunError::ConfigError(m) && m@
                    == "API key cannot be empty"@,
            }),
    {
        if config.api_key.as_str().is_empty() {
            return Err(AliYunError::ConfigError("API key cannot be empty".to_owned()));
        }
        Ok(AliYunClient { config })
    }

    /// A client with the given credential and every other setting at
    /// its default.
    pub fn with_api_key(api_key: &str) -> (r: Result<Self, AliYunError>)
        ensures
            r is Err <==> api_key@.len() == 0,
            (match r {
                Ok(c) => c@.api_key@ == api_key@ && c@.model_type == AliYunModelType::QwenTurbo
                    && c@.timeout_seconds == 30 && c@.base_url@
                    == "https://dashscope.aliyuncs.com"@,
                Err(e) => e matches AliYunError::ConfigError(m) && m@
                    == "API key cannot be empty"@,
            }),
    {
        let mut config = AliYunConfig::default();
        config.api_key = api_key.to_owned();
        Self::new(config)
    }

    /// A client with the given credential and model, everything else
    /// at its default.
    pub fn with_api_key_and_model(api_key: &str, model_type: AliYunModelType) -> (r: Result<
        Self,
        AliYunError,
    >)
        ensures
            r is Err <==> api_key@.len() == 0,
            (match r {
                Ok(c) => c@.api_key@ == api_key@ && c@.model_type == model_type
                    && c@.timeout_seconds == 30 && c@.base_url@
                    == "https://dashscope.aliyuncs.com"@,
                Err(e) => e matches AliYunError::ConfigError(m) && m@
                    == "API key cannot be empty"@,
            }),
    {
        let mut config = AliYunConfig::default();
        config.api_key = api_key.to_owned();
        config.model_type = model_type;
        Self::new(config)
    }

    /// The settings in force.
    pub fn get_config(&self) -> (r: &AliYunConfig)
        ensures
            *r == self@,
    {
        &self.config
    }

    /// Changes the model; nothing else moves.
    pub fn set_model(&mut self, model_type: AliYunModelType)
        ensures
            final(self)@.model_type == model_type,
            final(self)@.api_key == old(self)@.api_key,
            final(self)@.base_url == old(self)@.base_url,
            final(self)@.timeout_seconds == old(self)@.timeout_seconds,
    {
        self.config.model_type = model_type;
    }

    /// The completions endpoint: the configured base joined with this
    /// backend's fixed path.
    pub fn endpoint_url(&self) -> (r: String)
        ensures
            r@ == self@.base_url@ + "/compatible-mode/v1/chat/completions"@,
    {
        let mut u = self.config.base_url.clone();
        u.append("/compatible-mode/v1/chat/completions");
        u
    }

    /// The authorization header value: a bearer token built from the
    /// credential.
    pub fn auth_header(&self) -> (r: String)
        ensures
            r@ == "Bearer "@ + self@.api_key@,
    {
        let mut h = "Bearer ".to_owned();
        h.append(self.config.api_key.as_str());
        h
    }

    /// Assembles the request envelope: the configured model's wire id,
    /// the messages, the temperature (0.7 unless given), the optional
    /// token cap and the stream flag.
    pub fn build_request(
        &self,
        messages: Vec<ChatMessage>,
        temperature_hundredths: Option<u32>,
        max_tokens: Option<i32>,
        stream: bool,
    ) -> (r: AliYunChatRequest)
        ensures
            r.model@ == wire_name_of(self@.model_type),
            r.messages@ == messages@,
            r.temperature_hundredths == (match temperature_hundredths {
                Some(t) => t,
                None => 70u32,
            }),
            r.max_tokens == max_tokens,
            r.stream == stream,
    {
        AliYunChatRequest {
            model: self.config.model_type.name().to_owned(),
            messages,
            temperature_hundredths: match temperature_hundredths {
                Some(t) => t,
                None => 70,
            },
            max_tokens,
            stream,
        }
    }

    /// Classifies a complete server response, as for the other
    /// backend.
    pub fn response_outcome(&self, status: u16, body: &str) -> (r: Result<String, AliYunError>)
        ensures
            (if 200 <= status < 300 {
                match reply_of(body@) {
                    Some(c) => r matches Ok(s) && s@ == c,
                    None => r matches Err(e) && e matches AliYunError::ParseError(m) && m@ == (
                    if body_parses(body@) {
                        "No choices in response"@
                    } else {
                        "Failed to parse response"@
                    }),
                }
            } else {
                r matches Err(e) && e matches AliYunError::ApiError(m) && m@ == "HTTP "@ + dec_str(
                    status as nat,
                ) + ": "@ + body@
            }),
    {
        if !(200 <= status && status < 300) {
            let mut m = "HTTP ".to_owned();
            let s = u64_to_string(status as u64);
            m.append(s.as_str());
            m.append(": ");
            m.append(body);
            return Err(AliYunError::ApiError(m));
        }
        match json_string_at(body.as_bytes(), "/choices/0/message/content") {
            Some(c) => Ok(c),
            None => {
                if json_parses(body.as_bytes()) {
                    Err(AliYunError::ParseError("No choices in response".to_owned()))
                } else {
                    Err(AliYunError::ParseError("Failed to parse response".to_owned()))
                }
            },
        }
    }

    /// Classifies a failure to reach the server at all, as for the
    /// other backend.
    pub fn send_failure(&self, timed_out: bool, detail: &str) -> (r: AliYunError)
        ensures
            (if timed_out {
                r matches AliYunError::Timeout(m) && m@ == "Request timeout after "@ + dec_str(
                    self@.timeout_seconds as nat,
                ) + " seconds"@
            } else {
                r matches AliYunError::RequestError(m) && m@ == "Failed to send request: "@
                    + detail@
            }),
    {
        if timed_out {
            let mut m = "Request timeout after ".to_owned();
            let s = u64_to_string(self.config.timeout_seconds);
            m.append(s.as_str());
            m.append(" seconds");
            AliYunError::Timeout(m)
        } else {
            let mut m = "Failed to send request: ".to_owned();
            m.append(detail);
            AliYunError::RequestError(m)
        }
    }

    /// The message list for a one-shot exchange: the optional system
    /// prompt, then a system message pinning the answer's language,
    /// then the user's text.
    pub fn simple_chat_messages(
        user_message: &str,
        system_prompt: Option<&str>,
        language: Language,
    ) -> (r: Vec<ChatMessage>)
        ensures
            (match system_prompt {
                Some(p) => r@.len() == 3 && r@[0]@ == ("system"@, p@) && r@[1]@ == (
                    "system"@,
                    language_prompt(language),
                ) && r@[2]@ == ("user"@, user_message@),
                None => r@.len() == 2 && r@[0]@ == ("system"@, language_prompt(language)) && r@[1]@
                    == ("user"@, user_message@),
            }),
    {
        let mut messages: Vec<ChatMessage> = Vec::new();
        if let Some(p) = system_prompt {
            messages.push(create_system_message(p));
        }
        match language {
            Language::Chinese => messages.push(create_system_message("请使用中文回答。")),
            Language::English => messages.push(
                create_system_message("Please respond in English only."),
            ),
        }
        messages.push(create_user_message(user_message));
        messages
    }

    /// The fixed probe sent to test a connection.
    pub fn connection_probe() -> (r: ChatMessage)
        ensures
            r@ == ("user"@, "Hello, respond with 'OK' if you can hear me."@),
    {
        create_user_message("Hello, respond with 'OK' if you can hear me.")
    }

    /// The verdict on a probe's outcome: connected when the call
    /// succeeded with any non-empty text (or one naming OK), and false
    /// on every error, which is swallowed, never passed on.
    pub fn connection_verdict(outcome: &Result<String, AliYunError>) -> (r: bool)
        ensures
            r == (match outcome {
                Ok(s) => spec_contains(s@, "OK"@) || s@.len() > 0,
                Err(_) => false,
            }),
    {
        match outcome {
            Ok(resp) => str_contains(resp.as_str(), "OK") || !resp.as_str().is_empty(),
            Err(_) => false,
        }
    }
}

} // verus!
