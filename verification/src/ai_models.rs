//! The catalog of selectable backends: which need a credential, which
//! reach a real network API, how each presents itself, and the
//! deterministic stand-in answer of the simulated ones.

use vstd::prelude::*;
use vstd::string::StrSliceExecFns;
use vstd::string::StringExecFns;
use crate::aliyun::AliYunModelType;
use crate::aliyun::description_of;
use crate::aliyun::display_name_of;
use crate::i18n::Language;
use crate::text::lower_of;
use crate::text::match_at;
use crate::text::str_eq;
use crate::text::to_lowercase;

verus! {

/// A selectable backend: two real network APIs, several simulated
/// ones, and a free-form custom entry.
#[derive(Debug, PartialEq, Eq, Hash)]
pub enum AIModel {
    DeepSeek,
    OpenAI,
    Mistral,
    Gemini,
    AliYun(AliYunModelType),
    LocalLLM,
    Custom(String),
}

/// The mathematical shape of a catalog entry: as the enum, with the
/// custom name as its characters.
pub enum AIModelV {
    DeepSeek,
    OpenAI,
    Mistral,
    Gemini,
    AliYun(AliYunModelType),
    LocalLLM,
    Custom(Seq<char>),
}

impl View for AIModel {
    type V = AIModelV;

    open spec fn view(&self) -> AIModelV {
        match self {
            AIModel::DeepSeek => AIModelV::DeepSeek,
            AIModel::OpenAI => AIModelV::OpenAI,
            AIModel::Mistral => AIModelV::Mistral,
            AIModel::Gemini => AIModelV::Gemini,
            AIModel::AliYun(t) => AIModelV::AliYun(*t),
            AIModel::LocalLLM => AIModelV::LocalLLM,
            AIModel::Custom(s) => AIModelV::Custom(s@),
        }
    }
}

impl Clone for AIModel {
    fn clone(&self) -> (r: Self)
        ensures
            r == *self,
    {
        match self {
            AIModel::DeepSeek => AIModel::DeepSeek,
            AIModel::OpenAI => AIModel::OpenAI,
            AIModel::Mistral => AIModel::Mistral,
            AIModel::Gemini => AIModel::Gemini,
            AIModel::AliYun(t) => AIModel::AliYun(*t),
            AIModel::LocalLLM => AIModel::LocalLLM,
            AIModel::Custom(s) => AIModel::Custom(s.clone()),
        }
    }
}

/// The shapes of a sequence of catalog entries.
pub open spec fn models_view(s: Seq<AIModel>) -> Seq<AIModelV> {
    s.map_values(|m: AIModel| m@)
}

/// The interface name of a catalog entry, per language.
pub open spec fn name_of(m: AIModelV, language: Language) -> Seq<char> {
    match m {
        AIModelV::DeepSeek => "DeepSeek"@,
        AIModelV::AliYun(t) => display_name_of(t, language),
        AIModelV::OpenAI => "OpenAI GPT"@,
        AIModelV::Mistral => "Mistral"@,
        AIModelV::Gemini => "Google Gemini"@,
        AIModelV::LocalLLM => (match language {
            Language::Chinese => "本地大模型"@,
            Language::English => "Local LLM"@,
        }),
        AIModelV::Custom(name) => name,
    }
}

/// The stand-in answer a simulated backend gives: deterministic text
/// built from the backend's identity and the user's input.  The two
/// real network backends answer with an error marker here, since they
/// are never meant to be simulated.
pub open spec fn simulated_reply_of(m: AIModelV, input: Seq<char>, language: Language) -> Seq<
    char,
> {
    let n = name_of(m, language);
    match m {
        AIModelV::OpenAI => (match language {
            Language::Chinese => "🤖 "@ + n + " 回复（模拟）:\n\n您好！我是"@ + n
                + "，这是一个模拟回复。\n\n您的问题是：\""@ + input
                + "\"\n\n实际上，如果您配置了真实的API密钥，我可以连接到真实的"@
                + n + " API为您提供智能回复。"@,
            Language::English => "🤖 "@ + n + " Response (Simulated):\n\nHello! I'm "@ + n
                + ", this is a simulated response.\n\nYour question: \""@ + input
                + "\"\n\nIn reality, if you configure a real API key, I can connect to the real "@
                + n + " API to provide intelligent responses."@,
        }),
        AIModelV::Mistral => (match language {
            Language::Chinese => "🤖 "@ + n + " 回复（模拟）:\n\n你好！我是"@ + n
                + "，这是模拟对话。\n\n你说：\""@ + input
                + "\"\n\n要获得真实回复，请配置相应的API密钥。"@,
            Language::English => "🤖 "@ + n + " Response (Simulated):\n\nHello! I'm "@ + n
                + ", this is a simulated conversation.\n\nYou said: \""@ + input
                + "\"\n\nTo get real responses, please configure the appropriate API key."@,
        }),
        AIModelV::Gemini => (match language {
            Language::Chinese => "🤖 "@ + n + " 回复（模拟）:\n\n您好！我是Google的"@
                + n + "模型，当前为模拟模式。\n\n您输入的内容："@ + input
                + "\n\n如需真实功能，请设置API密钥。"@,
            Language::English => "🤖 "@ + n + " Response (Simulated):\n\nHello! I'm Google's "@ + n
                + " model, currently in simulation mode.\n\nYour input: "@ + input
                + "\n\nFor real functionality, please set up the API key."@,
        }),
        AIModelV::LocalLLM => (match language {
            Language::Chinese => "🤖 "@ + n
                + " 回复（模拟）:\n\n这是本地大模型的模拟回复。\n\n您的问题："@
                + input + "\n\n本地模型运行在您的设备上，保护您的隐私。"@,
            Language::English => "🤖 "@ + n
                + " Response (Simulated):\n\nThis is a simulated response from a local LLM.\n\nYour question: "@
                + input + "\n\nLocal models run on your device, protecting your privacy."@,
        }),
        AIModelV::Custom(name) => (match language {
            Language::Chinese => "🤖 自定义模型『"@ + name
                + "』回复：\n\n这是自定义模型的模拟回复。\n\n输入内容："@ + input,
            Language::English => "🤖 Custom Model『"@ + name
                + "』Response:\n\nThis is a simulated response from a custom model.\n\nInput: "@
                + input,
        }),
        _ => (match language {
            Language::Chinese => "错误："@ + n
                + "应该通过API调用，但进入了模拟模式"@,
            Language::English => "Error: "@ + n
                + " should be called via API, but entered simulation mode"@,
        }),
    }
}

/// The stored form of a catalog entry, used by its textual round trip.
pub open spec fn to_string_of(m: AIModelV) -> Seq<char> {
    match m {
        AIModelV::DeepSeek => "deepseek"@,
        AIModelV::AliYun(t) => (match t {
            AliYunModelType::QwenTurbo => "qwenturbo"@,
            AliYunModelType::QwenPlus => "qwenplus"@,
            AliYunModelType::QwenMax => "qwenmax"@,
            AliYunModelType::QwenMaxLongContext => "qwenmaxlongcontext"@,
        }),
        AIModelV::OpenAI => "openai"@,
        AIModelV::Mistral => "mistral"@,
        AIModelV::Gemini => "gemini"@,
        AIModelV::LocalLLM => "localllm"@,
        AIModelV::Custom(name) => "custom:"@ + name,
    }
}

/// A name with every leading `custom:` marker removed.
pub open spec fn strip_custom(s: Seq<char>) -> Seq<char>
    decreases s.len(),
{
    if s.len() >= 7 && s.subrange(0, 7) == "custom:"@ {
        strip_custom(s.skip(7))
    } else {
        s
    }
}

/// Which catalog entry a stored name denotes: fixed names are matched
/// case-insensitively; a name carrying the `custom:` marker (matched
/// case-sensitively) denotes a custom entry named by what follows the
/// markers.
pub open spec fn from_str_of(lowered: Seq<char>, orig: Seq<char>) -> Option<AIModelV> {
    if lowered == "deepseek"@ {
        Some(AIModelV::DeepSeek)
    } else if lowered == "openaigpt"@ || lowered == "openai"@ {
        Some(AIModelV::OpenAI)
    } else if lowered == "mistral"@ {
        Some(AIModelV::Mistral)
    } else if lowered == "gemini"@ {
        Some(AIModelV::Gemini)
    } else if lowered == "localllm"@ || lowered == "local"@ {
        Some(AIModelV::LocalLLM)
    } else if lowered == "qwenturbo"@ {
        Some(AIModelV::AliYun(AliYunModelType::QwenTurbo))
    } else if lowered == "qwenplus"@ {
        Some(AIModelV::AliYun(AliYunModelType::QwenPlus))
    } else if lowered == "qwenmax"@ {
        Some(AIModelV::AliYun(AliYunModelType::QwenMax))
    } else if orig.len() >= 7 && orig.subrange(0, 7) == "custom:"@ {
        Some(AIModelV::Custom(strip_custom(orig)))
    } else {
        None
    }
}

impl AIModel {
    /// Every catalog entry, in display order.
    pub fn all() -> (r: Vec<Self>)
        ensures
            models_view(r@) == seq![
                AIModelV::DeepSeek,
                AIModelV::AliYun(AliYunModelType::QwenTurbo),
                AIModelV::AliYun(AliYunModelType::QwenPlus),
                AIModelV::AliYun(AliYunModelType::QwenMax),
                AIModelV::AliYun(AliYunModelType::QwenMaxLongContext),
                AIModelV::OpenAI,
                AIModelV::Mistral,
                AIModelV::Gemini,
                AIModelV::LocalLLM,
                AIModelV::Custom("Custom Model"@),
            ],
    {
        let mut v: Vec<AIModel> = Vec::new();
        v.push(AIModel::DeepSeek);
        v.push(AIModel::AliYun(AliYunModelType::QwenTurbo));
        v.push(AIModel::AliYun(AliYunModelType::QwenPlus));
        v.push(AIModel::AliYun(AliYunModelType::QwenMax));
        v.push(AIModel::AliYun(AliYunModelType::QwenMaxLongContext));
        v.push(AIModel::OpenAI);
        v.push(AIModel::Mistral);
        v.push(AIModel::Gemini);
        v.push(AIModel::LocalLLM);
        v.push(AIModel::Custom("Custom Model".to_owned()));
        proof {
            assert(models_view(v@) =~= seq![
                AIModelV::DeepSeek,
                AIModelV::AliYun(AliYunModelType::QwenTurbo),
                AIModelV::AliYun(AliYunModelType::QwenPlus),
                AIModelV::AliYun(AliYunModelType::QwenMax),
                AIModelV::AliYun(AliYunModelType::QwenMaxLongContext),
                AIModelV::OpenAI,
                AIModelV::Mistral,
                AIModelV::Gemini,
                AIModelV::LocalLLM,
                AIModelV::Custom("Custom Model"@),
            ]);
        }
        v
    }

    /// The name shown in the interface, per language.
    pub fn name(&self, language: Language) -> (r: String)
        ensures
            r@ == name_of(self@, language),
    {
        match self {
            AIModel::DeepSeek => "DeepSeek".to_owned(),
            AIModel::AliYun(model_type) => model_type.display_name(language),
            AIModel::OpenAI => "OpenAI GPT".to_owned(),
            AIModel::Mistral => "Mistral".to_owned(),
            AIModel::Gemini => "Google Gemini".to_owned(),
            AIModel::LocalLLM => match language {
                Language::Chinese => "本地大模型".to_owned(),
                Language::English => "Local LLM".to_owned(),
            },
            AIModel::Custom(name) => name.clone(),
        }
    }

    /// A short description of the entry, per language.
    pub fn description(&self, language: Language) -> (r: String)
        ensures
            r@ == (match self@ {
                AIModelV::DeepSeek => (match language {
                    Language::Chinese => "深度求索公司的AI助手，支持128K上下文"@,
                    Language::English => "AI assistant from DeepSeek, supports 128K context"@,
                }),
                AIModelV::AliYun(t) => description_of(t, language),
                AIModelV::OpenAI => (match language {
                    Language::Chinese => "OpenAI的GPT系列模型，功能强大"@,
                    Language::English => "OpenAI's GPT series models, powerful capabilities"@,
                }),
                AIModelV::Mistral => (match language {
                    Language::Chinese => "Mistral的对话模型，安全可靠"@,
                    Language::English => "Mistral's chat model, safe and reliable"@,
                }),
                AIModelV::Gemini => (match language {
                    Language::Chinese => "Google的Gemini多模态模型"@,
                    Language::English => "Google's Gemini multimodal model"@,
                }),
                AIModelV::LocalLLM => (match language {
                    Language::Chinese => "本地运行的大语言模型，保护隐私"@,
                    Language::English => "Locally running LLM, privacy protected"@,
                }),
                AIModelV::Custom(_) => (match language {
                    Language::Chinese => "自定义AI模型"@,
                    Language::English => "Custom AI model"@,
                }),
            }),
    {
        match self {
            AIModel::DeepSeek => match language {
                Language::Chinese => "深度求索公司的AI助手，支持128K上下文".to_owned(),
                Language::English => "AI assistant from DeepSeek, supports 128K context".to_owned(),
            },
            AIModel::AliYun(model_type) => model_type.description(language),
            AIModel::OpenAI => match language {
                Language::Chinese => "OpenAI的GPT系列模型，功能强大".to_owned(),
                Language::English => "OpenAI's GPT series models, powerful capabilities".to_owned(),
            },
            AIModel::Mistral => match language {
                Language::Chinese => "Mistral的对话模型，安全可靠".to_owned(),
                Language::English => "Mistral's chat model, safe and reliable".to_owned(),
            },
            AIModel::Gemini => match language {
                Language::Chinese => "Google的Gemini多模态模型".to_owned(),
                Language::English => "Google's Gemini multimodal model".to_owned(),
            },
            AIModel::LocalLLM => match language {
                Language::Chinese => "本地运行的大语言模型，保护隐私".to_owned(),
                Language::English => "Locally running LLM, privacy protected".to_owned(),
            },
            AIModel::Custom(_) => match language {
                Language::Chinese => "自定义AI模型".to_owned(),
                Language::English => "Custom AI model".to_owned(),
            },
        }
    }

    /// Whether using the entry calls for a credential.
    pub fn needs_api_key(&self) -> (r: bool)
        ensures
            r == (match self@ {
                AIModelV::DeepSeek => true,
                AIModelV::AliYun(_) => true,
                AIModelV::OpenAI => true,
                AIModelV::Mistral => true,
                AIModelV::Gemini => true,
                AIModelV::LocalLLM => false,
                AIModelV::Custom(_) => false,
            }),
    {
        match self {
            AIModel::DeepSeek => true,
            AIModel::AliYun(_) => true,
            AIModel::OpenAI => true,
            AIModel::Mistral => true,
            AIModel::Gemini => true,
            AIModel::LocalLLM => false,
            AIModel::Custom(_) => false,
        }
    }

    /// The environment variable the credential is read from, where one
    /// is called for.
    pub fn api_key_env_var(&self) -> (r: Option<&'static str>)
        ensures
            (match self@ {
                AIModelV::DeepSeek => r matches Some(s) && s@ == "DEEPSEEK_API_KEY"@,
                AIModelV::AliYun(_) => r matches Some(s) && s@ == "ALIYUN_API_KEY"@,
                AIModelV::OpenAI => r matches Some(s) && s@ == "OPENAI_API_KEY"@,
                AIModelV::Mistral => r matches Some(s) && s@ == "MISTRAL_API_KEY"@,
                AIModelV::Gemini => r matches Some(s) && s@ == "GEMINI_API_KEY"@,
                AIModelV::LocalLLM => r is None,
                AIModelV::Custom(_) => r is None,
            }),
    {
        match self {
            AIModel::DeepSeek => Some("DEEPSEEK_API_KEY"),
            AIModel::AliYun(_) => Some("ALIYUN_API_KEY"),
            AIModel::OpenAI => Some("OPENAI_API_KEY"),
            AIModel::Mistral => Some("MISTRAL_API_KEY"),
            AIModel::Gemini => Some("GEMINI_API_KEY"),
            AIModel::LocalLLM => None,
            AIModel::Custom(_) => None,
        }
    }

    /// Whether the entry reaches a real network backend.
    pub fn is_real_api(&self) -> (r: bool)
        ensures
            r == (self@ is DeepSeek || self@ is AliYun),
    {
        match self {
            AIModel::DeepSeek => true,
            AIModel::AliYun(_) => true,
            AIModel::OpenAI => false,
            AIModel::Mistral => false,
            AIModel::Gemini => false,
            AIModel::LocalLLM => false,
            AIModel::Custom(_) => false,
        }
    }

    /// The deterministic stand-in answer of a simulated backend.
    pub fn simulate_response(&self, user_input: &str, language: Language) -> (r: String)
        ensures
            r@ == simulated_reply_of(self@, user_input@, language),
    {
        let model_name = self.name(language);
        let n = model_name.as_str();
        let mut s = String::new();
        match self {
            AIModel::OpenAI => match language {
                Language::Chinese => {
                    s.append("🤖 ");
                    s.append(n);
                    s.append(" 回复（模拟）:\n\n您好！我是");
                    s.append(n);
                    s.append("，这是一个模拟回复。\n\n您的问题是：\"");
                    s.append(user_input);
                    s.append(
                        "\"\n\n实际上，如果您配置了真实的API密钥，我可以连接到真实的",
                    );
                    s.append(n);
                    s.append(" API为您提供智能回复。");
                },
                Language::English => {
                    s.append("🤖 ");
                    s.append(n);
                    s.append(" Response (Simulated):\n\nHello! I'm ");
                    s.append(n);
                    s.append(", this is a simulated response.\n\nYour question: \"");
                    s.append(user_input);
                    s.append(
                        "\"\n\nIn reality, if you configure a real API key, I can connect to the real ",
                    );
                    s.append(n);
                    s.append(" API to provide intelligent responses.");
                },
            },
            AIModel::Mistral => match language {
                Language::Chinese => {
                    s.append("🤖 ");
                    s.append(n);
                    s.append(" 回复（模拟）:\n\n你好！我是");
                    s.append(n);
                    s.append("，这是模拟对话。\n\n你说：\"");
                    s.append(user_input);
                    s.append("\"\n\n要获得真实回复，请配置相应的API密钥。");
                },
                Language::English => {
                    s.append("🤖 ");
                    s.append(n);
                    s.append(" Response (Simulated):\n\nHello! I'm ");
                    s.append(n);
                    s.append(", this is a simulated conversation.\n\nYou said: \"");
                    s.append(user_input);
                    s.append("\"\n\nTo get real responses, please configure the appropriate API key.");
                },
            },
            AIModel::Gemini => match language {
                Language::Chinese => {
                    s.append("🤖 ");
                    s.append(n);
                    s.append(" 回复（模拟）:\n\n您好！我是Google的");
                    s.append(n);
                    s.append("模型，当前为模拟模式。\n\n您输入的内容：");
                    s.append(user_input);
                    s.append("\n\n如需真实功能，请设置API密钥。");
                },
                Language::English => {
                    s.append("🤖 ");
                    s.append(n);
                    s.append(" Response (Simulated):\n\nHello! I'm Google's ");
                    s.append(n);
                    s.append(" model, currently in simulation mode.\n\nYour input: ");
                    s.append(user_input);
                    s.append("\n\nFor real functionality, please set up the API key.");
                },
            },
            AIModel::LocalLLM => match language {
                Language::Chinese => {
                    s.append("🤖 ");
                    s.append(n);
                    s.append(
                        " 回复（模拟）:\n\n这是本地大模型的模拟回复。\n\n您的问题：",
                    );
                    s.append(user_input);
                    s.append("\n\n本地模型运行在您的设备上，保护您的隐私。");
                },
                Language::English => {
                    s.append("🤖 ");
                    s.append(n);
                    s.append(
                        " Response (Simulated):\n\nThis is a simulated response from a local LLM.\n\nYour question: ",
                    );
                    s.append(user_input);
                    s.append("\n\nLocal models run on your device, protecting your privacy.");
                },
            },
            AIModel::Custom(name) => match language {
                Language::Chinese => {
                    s.append("🤖 自定义模型『");
                    s.append(name.as_str());
                    s.append("』回复：\n\n这是自定义模型的模拟回复。\n\n输入内容：");
                    s.append(user_input);
                },
                Language::English => {
                    s.append("🤖 Custom Model『");
                    s.append(name.as_str());
                    s.append("』Response:\n\nThis is a simulated response from a custom model.\n\nInput: ");
                    s.append(user_input);
                },
            },
            _ => match language {
                Language::Chinese => {
                    s.append("错误：");
                    s.append(n);
                    s.append("应该通过API调用，但进入了模拟模式");
                },
                Language::English => {
                    s.append("Error: ");
                    s.append(n);
                    s.append(" should be called via API, but entered simulation mode");
                },
            },
        }
        proof {
            assert(s@ =~= simulated_reply_of(self@, user_input@, language));
        }
        s
    }

    /// The icon shown beside the entry.
    pub fn icon(&self) -> (r: &'static str)
        ensures
            r@ == (match self@ {
                AIModelV::DeepSeek => "🔍"@,
                AIModelV::AliYun(_) => "☁️"@,
                AIModelV::OpenAI => "⚡"@,
                AIModelV::Mistral => "🧠"@,
                AIModelV::Gemini => "💎"@,
                AIModelV::LocalLLM => "💻"@,
                AIModelV::Custom(_) => "🛠️"@,
            }),
    {
        match self {
            AIModel::DeepSeek => "🔍",
            AIModel::AliYun(_) => "☁️",
            AIModel::OpenAI => "⚡",
            AIModel::Mistral => "🧠",
            AIModel::Gemini => "💎",
            AIModel::LocalLLM => "💻",
            AIModel::Custom(_) => "🛠️",
        }
    }

    /// The rough grouping the entry belongs to.
    pub fn category(&self) -> (r: &'static str)
        ensures
            r@ == (match self@ {
                AIModelV::LocalLLM => "Local"@,
                AIModelV::Custom(_) => "Custom"@,
                _ => "Cloud API"@,
            }),
    {
        match self {
            AIModel::DeepSeek => "Cloud API",
            AIModel::AliYun(_) => "Cloud API",
            AIModel::OpenAI => "Cloud API",
            AIModel::Mistral => "Cloud API",
            AIModel::Gemini => "Cloud API",
            AIModel::LocalLLM => "Local",
            AIModel::Custom(_) => "Custom",
        }
    }

    /// Whether the entry belongs to the AliYun family.
    pub fn is_aliyun_model(&self) -> (r: bool)
        ensures
            r == (self@ is AliYun),
    {
        matches!(self, AIModel::AliYun(_))
    }

    /// The AliYun model of the entry, where it has one.
    pub fn get_aliyun_model_type(&self) -> (r: Option<AliYunModelType>)
        ensures
            r == (match self@ {
                AIModelV::AliYun(t) => Some(t),
                _ => None::<AliYunModelType>,
            }),
    {
        match self {
            AIModel::AliYun(model_type) => Some(*model_type),
            _ => None,
        }
    }

    /// Reads a stored name back into a catalog entry.
    pub fn from_str(name: &str) -> (r: Option<Self>)
        ensures
            (match r {
                Some(m) => from_str_of(lower_of(name@), name@) == Some(m@),
                None => from_str_of(lower_of(name@), name@) is None,
            }),
    {
        let lower = to_lowercase(name);
        let l = lower.as_str();
        if str_eq(l, "deepseek") {
            Some(AIModel::DeepSeek)
        } else if str_eq(l, "openaigpt") || str_eq(l, "openai") {
            Some(AIModel::OpenAI)
        } else if str_eq(l, "mistral") {
            Some(AIModel::Mistral)
        } else if str_eq(l, "gemini") {
            Some(AIModel::Gemini)
        } else if str_eq(l, "localllm") || str_eq(l, "local") {
            Some(AIModel::LocalLLM)
        } else if str_eq(l, "qwenturbo") {
            Some(AIModel::AliYun(AliYunModelType::QwenTurbo))
        } else if str_eq(l, "qwenplus") {
            Some(AIModel::AliYun(AliYunModelType::QwenPlus))
        } else if str_eq(l, "qwenmax") {
            Some(AIModel::AliYun(AliYunModelType::QwenMax))
        } else {
            let ln = name.unicode_len();
            proof {
                reveal_strlit("custom:");
            }
            if ln >= 7 && match_at(name, "custom:", 0) {
                let mut start: usize = 0;
                proof {
                    assert(name@.skip(0) =~= name@);
                }
                while start <= ln - 7 && match_at(name, "custom:", start)
                    invariant
                        7 <= ln,
                        start <= ln,
                        ln == name@.len(),
                        "custom:"@.len() == 7,
                        strip_custom(name@.skip(start as int)) == strip_custom(name@),
                    decreases ln - start,
                {
                    proof {
                        assert(name@.skip(start as int).subrange(0, 7) =~= name@.subrange(
                            start as int,
                            start + 7,
                        ));
                        assert(name@.skip(start as int).skip(7) =~= name@.skip(start + 7 as int));
                    }
                    start += 7;
                }
                proof {
                    let rest = name@.skip(start as int);
                    if rest.len() >= 7 && rest.subrange(0, 7) == "custom:"@ {
                        assert(rest.subrange(0, 7) =~= name@.subrange(start as int, start + 7));
                    }
                    assert(strip_custom(name@.skip(start as int)) == name@.skip(start as int));
                }
                let rest = name.substring_char(start, ln);
                proof {
                    assert(name@.subrange(start as int, ln as int) =~= name@.skip(start as int));
                }
                Some(AIModel::Custom(rest.to_owned()))
            } else {
                None
            }
        }
    }

    /// Writes the entry as its stored name.
    pub fn to_string(&self) -> (r: String)
        ensures
            r@ == to_string_of(self@),
    {
        match self {
            AIModel::DeepSeek => "deepseek".to_owned(),
            AIModel::AliYun(model_type) => match model_type {
                AliYunModelType::QwenTurbo => "qwenturbo".to_owned(),
                AliYunModelType::QwenPlus => "qwenplus".to_owned(),
                AliYunModelType::QwenMax => "qwenmax".to_owned(),
                AliYunModelType::QwenMaxLongContext => "qwenmaxlongcontext".to_owned(),
            },
            AIModel::OpenAI => "openai".to_owned(),
            AIModel::Mistral => "mistral".to_owned(),
            AIModel::Gemini => "gemini".to_owned(),
            AIModel::LocalLLM => "localllm".to_owned(),
            AIModel::Custom(name) => {
                let mut s = "custom:".to_owned();
                s.append(name.as_str());
                s
            },
        }
    }

    /// The entry selected at start-up.
    pub fn default_model() -> (r: Self)
        ensures
            r@ == AIModelV::DeepSeek,
    {
        AIModel::DeepSeek
    }

    /// A short list of recommended entries.
    pub fn recommended_models() -> (r: Vec<Self>)
        ensures
            models_view(r@) == seq![
                AIModelV::DeepSeek,
                AIModelV::AliYun(AliYunModelType::QwenTurbo),
                AIModelV::AliYun(AliYunModelType::QwenMax),
                AIModelV::OpenAI,
            ],
    {
        let mut v: Vec<AIModel> = Vec::new();
        v.push(AIModel::DeepSeek);
        v.push(AIModel::AliYun(AliYunModelType::QwenTurbo));
        v.push(AIModel::AliYun(AliYunModelType::QwenMax));
        v.push(AIModel::OpenAI);
        proof {
            assert(models_view(v@) =~= seq![
                AIModelV::DeepSeek,
                AIModelV::AliYun(AliYunModelType::QwenTurbo),
                AIModelV::AliYun(AliYunModelType::QwenMax),
                AIModelV::OpenAI,
            ]);
        }
        v
    }
}

/// A catalog entry for an AliYun model.
pub fn create_aliyun_model(model_type: AliYunModelType) -> (r: AIModel)
    ensures
        r@ == AIModelV::AliYun(model_type),
{
    AIModel::AliYun(model_type)
}

/// A custom catalog entry under the given name.
pub fn create_custom_model(name: &str) -> (r: AIModel)
    ensures
        r@ == AIModelV::Custom(name@),
{
    AIModel::Custom(name.to_owned())
}

} // verus!
