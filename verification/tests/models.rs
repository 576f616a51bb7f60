use ai_chat::ai_models::create_aliyun_model;
use ai_chat::ai_models::create_custom_model;
use ai_chat::ai_models::AIModel;
use ai_chat::aliyun::AliYunModelType;
use ai_chat::i18n::Language;

#[test]
fn the_catalog_lists_ten_models() {
    let all = AIModel::all();
    assert_eq!(all.len(), 10);
    assert_eq!(all[0], AIModel::DeepSeek);
    assert_eq!(all[1], AIModel::AliYun(AliYunModelType::QwenTurbo));
    assert_eq!(all[9], AIModel::Custom("Custom Model".to_string()));
}

#[test]
fn names_follow_the_language() {
    assert_eq!(AIModel::DeepSeek.name(Language::English), "DeepSeek");
    assert_eq!(AIModel::LocalLLM.name(Language::Chinese), "本地大模型");
    assert_eq!(AIModel::LocalLLM.name(Language::English), "Local LLM");
    assert_eq!(
        AIModel::AliYun(AliYunModelType::QwenTurbo).name(Language::Chinese),
        "通义千问-Turbo"
    );
    assert_eq!(create_custom_model("Mine").name(Language::English), "Mine");
}

#[test]
fn key_requirements_and_real_apis() {
    assert!(AIModel::DeepSeek.needs_api_key());
    assert!(AIModel::DeepSeek.is_real_api());
    assert!(AIModel::AliYun(AliYunModelType::QwenMax).is_real_api());
    assert!(AIModel::OpenAI.needs_api_key());
    assert!(!AIModel::OpenAI.is_real_api());
    assert!(!AIModel::LocalLLM.needs_api_key());
    assert!(!create_custom_model("x").needs_api_key());
}

#[test]
fn env_var_names() {
    assert_eq!(AIModel::DeepSeek.api_key_env_var(), Some("DEEPSEEK_API_KEY"));
    assert_eq!(
        AIModel::AliYun(AliYunModelType::QwenPlus).api_key_env_var(),
        Some("ALIYUN_API_KEY")
    );
    assert_eq!(AIModel::LocalLLM.api_key_env_var(), None);
}

#[test]
fn categories_and_icons() {
    assert_eq!(AIModel::DeepSeek.category(), "Cloud API");
    assert_eq!(AIModel::LocalLLM.category(), "Local");
    assert_eq!(create_custom_model("x").category(), "Custom");
    assert_eq!(AIModel::DeepSeek.icon(), "🔍");
    assert_eq!(AIModel::Mistral.icon(), "🧠");
}

#[test]
fn aliyun_membership() {
    let m = create_aliyun_model(AliYunModelType::QwenMax);
    assert!(m.is_aliyun_model());
    assert_eq!(m.get_aliyun_model_type(), Some(AliYunModelType::QwenMax));
    assert!(!AIModel::DeepSeek.is_aliyun_model());
    assert_eq!(AIModel::DeepSeek.get_aliyun_model_type(), None);
}

#[test]
fn from_str_reads_stored_names() {
    assert_eq!(AIModel::from_str("deepseek"), Some(AIModel::DeepSeek));
    assert_eq!(AIModel::from_str("DeepSeek"), Some(AIModel::DeepSeek));
    assert_eq!(AIModel::from_str("openai"), Some(AIModel::OpenAI));
    assert_eq!(AIModel::from_str("openaigpt"), Some(AIModel::OpenAI));
    assert_eq!(AIModel::from_str("mistral"), Some(AIModel::Mistral));
    assert_eq!(AIModel::from_str("gemini"), Some(AIModel::Gemini));
    assert_eq!(AIModel::from_str("local"), Some(AIModel::LocalLLM));
    assert_eq!(
        AIModel::from_str("qwenturbo"),
        Some(AIModel::AliYun(AliYunModelType::QwenTurbo))
    );
    assert_eq!(AIModel::from_str("qwenmax"), Some(AIModel::AliYun(AliYunModelType::QwenMax)));
    assert_eq!(
        AIModel::from_str("custom:My Model"),
        Some(AIModel::Custom("My Model".to_string()))
    );
    assert_eq!(AIModel::from_str("nonsense"), None);
    assert_eq!(AIModel::from_str(""), None);
}

#[test]
fn to_string_writes_stored_names() {
    assert_eq!(AIModel::DeepSeek.to_string(), "deepseek");
    assert_eq!(AIModel::AliYun(AliYunModelType::QwenMaxLongContext).to_string(), "qwenmaxlongcontext");
    assert_eq!(AIModel::LocalLLM.to_string(), "localllm");
    assert_eq!(create_custom_model("Mine").to_string(), "custom:Mine");
}

#[test]
fn stored_names_round_trip_for_the_named_models() {
    for m in [
        AIModel::DeepSeek,
        AIModel::OpenAI,
        AIModel::Mistral,
        AIModel::Gemini,
        AIModel::LocalLLM,
        AIModel::AliYun(AliYunModelType::QwenTurbo),
        AIModel::AliYun(AliYunModelType::QwenPlus),
        AIModel::AliYun(AliYunModelType::QwenMax),
        AIModel::Custom("Mine".to_string()),
    ] {
        assert_eq!(AIModel::from_str(&m.to_string()), Some(m));
    }
}

#[test]
fn defaults_and_recommendations() {
    assert_eq!(AIModel::default_model(), AIModel::DeepSeek);
    let rec = AIModel::recommended_models();
    assert_eq!(rec.len(), 4);
    assert_eq!(rec[0], AIModel::DeepSeek);
    assert_eq!(rec[3], AIModel::OpenAI);
}

#[test]
fn simulated_reply_is_deterministic_text() {
    let r = AIModel::Mistral.simulate_response("test", Language::English);
    assert_eq!(
        r,
        "🤖 Mistral Response (Simulated):\n\nHello! I'm Mistral, this is a simulated conversation.\n\nYou said: \"test\"\n\nTo get real responses, please configure the appropriate API key."
    );
    let r2 = AIModel::LocalLLM.simulate_response("hi", Language::Chinese);
    assert_eq!(
        r2,
        "🤖 本地大模型 回复（模拟）:\n\n这是本地大模型的模拟回复。\n\n您的问题：hi\n\n本地模型运行在您的设备上，保护您的隐私。"
    );
    let r3 = AIModel::DeepSeek.simulate_response("x", Language::English);
    assert_eq!(r3, "Error: DeepSeek should be called via API, but entered simulation mode");
}

#[test]
fn qwen_wire_ids_and_limits() {
    assert_eq!(AliYunModelType::QwenTurbo.name(), "qwen-turbo");
    assert_eq!(AliYunModelType::QwenMaxLongContext.name(), "qwen-max-longcontext");
    assert_eq!(AliYunModelType::QwenTurbo.max_tokens(), 2000);
    assert_eq!(AliYunModelType::QwenPlus.max_tokens(), 6000);
    assert_eq!(AliYunModelType::QwenMax.max_tokens(), 8000);
    assert_eq!(AliYunModelType::all().len(), 4);
    assert_eq!(
        AliYunModelType::QwenTurbo.endpoint(),
        "https://dashscope.aliyuncs.com/compatible-mode/v1/chat/completions"
    );
    assert_eq!(AliYunModelType::QwenPlus.display_name(Language::English), "Qwen-Plus");
}
