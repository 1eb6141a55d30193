use vstd::prelude::*;

use crate::config_value::{ConfigValue, Num};
use crate::service::TTSConfig;
use crate::text::{joined, owned};

verus! {

/// A text in English and Chinese.
#[derive(Clone, Debug)]
pub struct MultiLingualString {
    pub en: String,
    pub zh: String,
}

impl MultiLingualString {
    /// The text for `lang_code`: Chinese for "zh", English otherwise.
    pub fn get(&self, lang_code: &str) -> (r: &str)
        ensures
            r@ == if lang_code@ == "zh"@ {
                self.zh@
            } else {
                self.en@
            },
    {
        if crate::text::text_eq(lang_code, "zh") {
            self.zh.as_str()
        } else {
            self.en.as_str()
        }
    }
}

/// A description with optional notes, in both languages.
#[derive(Clone, Debug)]
pub struct Description {
    pub text: MultiLingualString,
    pub notes: Option<MultiLingualString>,
}

impl Description {
    /// The description for `lang_code`.
    pub fn get_text(&self, lang_code: &str) -> (r: &str)
        ensures
            r@ == if lang_code@ == "zh"@ {
                self.text.zh@
            } else {
                self.text.en@
            },
    {
        self.text.get(lang_code)
    }

    /// The notes for `lang_code`, if there are notes.
    pub fn get_notes(&self, lang_code: &str) -> (r: Option<&str>)
        ensures
            match self.notes {
                Some(n) => r matches Some(s) && s@ == if lang_code@ == "zh"@ {
                    n.zh@
                } else {
                    n.en@
                },
                None => r is None,
            },
    {
        match &self.notes {
            Some(n) => Some(n.get(lang_code)),
            None => None,
        }
    }

    /// A description that reads the same in both languages.
    pub fn from_str(text: &str, notes: Option<&str>) -> (r: Self)
        ensures
            r.text.en@ == text@,
            r.text.zh@ == text@,
            match notes {
                Some(n) => r.notes matches Some(m) && m.en@ == n@ && m.zh@ == n@,
                None => r.notes is None,
            },
    {
        Description {
            text: MultiLingualString { en: owned(text), zh: owned(text) },
            notes: match notes {
                Some(n) => Some(MultiLingualString { en: owned(n), zh: owned(n) }),
                None => None,
            },
        }
    }
}

/// Descriptions of a configuration's fields.
pub trait I18nMixin {
    fn get_field_description(&self, field_name: &str, lang_code: &str) -> Option<String>;

    fn get_field_notes(&self, field_name: &str, lang_code: &str) -> Option<String>;
}

/// `dir` joined with the relative path `name`, as a path join does on Unix.
pub open spec fn path_join(dir: Seq<char>, name: Seq<char>) -> Seq<char> {
    if dir.len() == 0 || dir.last() == '/' {
        dir + name
    } else {
        dir + "/"@ + name
    }
}

/// `dir` joined with the relative path `name`.
pub fn join_path(dir: &str, name: &str) -> (r: String)
    ensures
        r@ == path_join(dir@, name@),
{
    let n = dir.unicode_len();
    if n == 0 || dir.get_char(n - 1) == '/' {
        joined(dir, name)
    } else {
        let d = joined(dir, "/");
        joined(d.as_str(), name)
    }
}

/// The directories the server reads from.
#[derive(Clone, Debug)]
pub struct ServerPaths {
    pub live2d_models_dir: String,
    pub shared_assets_dir: String,
    pub cache_dir: String,
}

impl ServerPaths {
    pub fn backgrounds_dir(&self) -> (r: String)
        ensures
            r@ == path_join(self.shared_assets_dir@, "backgrounds"@),
    {
        join_path(self.shared_assets_dir.as_str(), "backgrounds")
    }

    pub fn avatars_dir(&self) -> (r: String)
        ensures
            r@ == path_join(self.shared_assets_dir@, "avatars"@),
    {
        join_path(self.shared_assets_dir.as_str(), "avatars")
    }

    pub fn assets_dir(&self) -> (r: String)
        ensures
            r@ == path_join(self.shared_assets_dir@, "assets"@),
    {
        join_path(self.shared_assets_dir.as_str(), "assets")
    }
}

/// Where the server listens and what it serves.
#[derive(Clone, Debug)]
pub struct ServerConfig {
    pub host: String,
    pub port: u16,
    pub paths: ServerPaths,
}

/// System settings.
#[derive(Clone, Debug)]
pub struct SystemConfig {
    pub conf_version: String,
    pub host: String,
    pub port: u16,
    pub config_alts_dir: String,
    /// Named prompts for tools, in the order given.
    pub tool_prompts: Vec<(String, String)>,
    pub live2d_models_dir: String,
    pub shared_assets_dir: String,
    pub cache_dir: String,
    pub backgrounds_dir: String,
    pub characters_dir: String,
}

pub fn default_live2d_models_dir() -> (r: String)
    ensures
        r@ == "config/live2d-models"@,
{
    owned("config/live2d-models")
}

pub fn default_shared_assets_dir() -> (r: String)
    ensures
        r@ == "config/shared"@,
{
    owned("config/shared")
}

pub fn default_cache_dir() -> (r: String)
    ensures
        r@ == "cache"@,
{
    owned("cache")
}

pub fn default_backgrounds_dir() -> (r: String)
    ensures
        r@ == "config/shared/backgrounds"@,
{
    owned("config/shared/backgrounds")
}

pub fn default_characters_dir() -> (r: String)
    ensures
        r@ == "config/characters"@,
{
    owned("config/characters")
}

impl SystemConfig {
    /// Every `u16` is a valid port, so this always succeeds.
    pub fn validate_port(&self) -> (r: Result<(), String>)
        ensures
            r is Ok,
    {
        Ok(())
    }

    pub fn get_backgrounds_path(&self) -> (r: String)
        ensures
            r == self.backgrounds_dir,
    {
        self.backgrounds_dir.clone()
    }

    pub fn get_characters_path(&self) -> (r: String)
        ensures
            r == self.characters_dir,
    {
        self.characters_dir.clone()
    }

    pub fn avatars_dir(&self) -> (r: String)
        ensures
            r@ == path_join(self.shared_assets_dir@, "avatars"@),
    {
        join_path(self.shared_assets_dir.as_str(), "avatars")
    }

    pub fn assets_dir(&self) -> (r: String)
        ensures
            r@ == path_join(self.shared_assets_dir@, "assets"@),
    {
        join_path(self.shared_assets_dir.as_str(), "assets")
    }

    pub fn backgrounds_path(&self) -> (r: String)
        ensures
            r == self.backgrounds_dir,
    {
        self.backgrounds_dir.clone()
    }

    /// The directory of the Live2D models as configured; app/ resolves it on disk.
    pub fn live2d_models_path(&self) -> (r: String)
        ensures
            r == self.live2d_models_dir,
    {
        self.live2d_models_dir.clone()
    }
}

impl Default for SystemConfig {
    fn default() -> (r: Self)
        ensures
            r.conf_version@ == "1.0"@,
            r.host@ == "localhost"@,
            r.port == 12393,
            r.config_alts_dir@ == "characters"@,
            r.tool_prompts@.len() == 0,
            r.live2d_models_dir@ == "config/live2d-models"@,
            r.shared_assets_dir@ == "config/shared"@,
            r.cache_dir@ == "cache"@,
            r.backgrounds_dir@ == "config/shared/backgrounds"@,
            r.characters_dir@ == "config/characters"@,
    {
        SystemConfig {
            conf_version: owned("1.0"),
            host: owned("localhost"),
            port: 12393,
            config_alts_dir: owned("characters"),
            tool_prompts: Vec::new(),
            live2d_models_dir: default_live2d_models_dir(),
            shared_assets_dir: default_shared_assets_dir(),
            cache_dir: default_cache_dir(),
            backgrounds_dir: default_backgrounds_dir(),
            characters_dir: default_characters_dir(),
        }
    }
}

/// Settings of the memory-backed agent.
#[derive(Clone, Debug)]
pub struct BasicMemoryAgentConfig {
    pub llm_provider: String,
    pub faster_first_response: bool,
    /// "regex" or "pysbd".
    pub segment_method: String,
}

pub fn default_true() -> (r: bool)
    ensures
        r,
{
    true
}

pub fn default_segment_method() -> (r: String)
    ensures
        r@ == "pysbd"@,
{
    owned("pysbd")
}

/// Settings of the Hume AI agent.
#[derive(Clone, Debug)]
pub struct HumeAIConfig {
    pub api_key: String,
    pub host: String,
    pub config_id: Option<String>,
    pub idle_timeout: u32,
}

pub fn default_hume_host() -> (r: String)
    ensures
        r@ == "api.hume.ai"@,
{
    owned("api.hume.ai")
}

pub fn default_idle_timeout() -> (r: u32)
    ensures
        r == 15,
{
    15
}

/// Settings shared by every model provider.
#[derive(Clone, Debug)]
pub struct StatelessLLMBaseConfig {
    /// "system" or "user".
    pub interrupt_method: String,
}

pub fn default_interrupt_method() -> (r: String)
    ensures
        r@ == "user"@,
{
    owned("user")
}

/// Settings of a `ClaudeLLM` provider.
#[derive(Clone, Debug)]
pub struct ClaudeConfig {
    pub base: StatelessLLMBaseConfig,
    pub base_url: String,
    pub llm_api_key: String,
    pub model: String,
}

/// Settings of a llama.cpp model.
#[derive(Clone, Debug)]
pub struct LlamaCppConfig {
    pub base: StatelessLLMBaseConfig,
    pub model_path: String,
}

/// Settings of the DeepLX translation service.
#[derive(Clone, Debug)]
pub struct DeepLXConfig {
    pub deeplx_target_lang: String,
    pub deeplx_api_endpoint: String,
}

/// Settings of the Tencent translation service.
#[derive(Clone, Debug)]
pub struct TencentConfig {
    pub secret_id: String,
    pub secret_key: String,
    pub region: String,
    pub source_lang: String,
    pub target_lang: String,
}

/// Settings of translation before speech.
#[derive(Clone, Debug)]
pub struct TranslatorConfig {
    pub translate_audio: bool,
    /// "deeplx" or "tencent".
    pub translate_provider: String,
    pub deeplx: Option<DeepLXConfig>,
    pub tencent: Option<TencentConfig>,
}

/// What is removed from text before it is spoken.
#[derive(Clone, Debug)]
pub struct TTSPreprocessorConfig {
    pub remove_special_char: bool,
    pub ignore_brackets: bool,
    pub ignore_parentheses: bool,
    pub ignore_asterisks: bool,
    pub ignore_angle_brackets: bool,
    pub translator_config: TranslatorConfig,
}

/// Settings of the Azure speech recognizer.
#[derive(Clone, Debug)]
pub struct AzureASRConfig {
    pub api_key: String,
    pub region: String,
    pub languages: Vec<String>,
}

pub fn default_languages() -> (r: Vec<String>)
    ensures
        r@.len() == 2,
        r@[0]@ == "en-US"@,
        r@[1]@ == "zh-CN"@,
{
    let mut v: Vec<String> = Vec::new();
    v.push(owned("en-US"));
    v.push(owned("zh-CN"));
    v
}

/// Settings of Faster Whisper.
#[derive(Clone, Debug)]
pub struct FasterWhisperConfig {
    pub model_path: String,
    pub download_root: String,
    pub language: Option<String>,
    /// "auto", "cpu" or "cuda".
    pub device: String,
}

pub fn default_device_auto() -> (r: String)
    ensures
        r@ == "auto"@,
{
    owned("auto")
}

/// Settings of WhisperCPP.
#[derive(Clone, Debug)]
pub struct WhisperCPPConfig {
    pub model_name: String,
    pub model_dir: String,
    pub print_realtime: bool,
    pub print_progress: bool,
    pub language: String,
}

pub fn default_language_auto() -> (r: String)
    ensures
        r@ == "auto"@,
{
    owned("auto")
}

/// Settings of OpenAI Whisper.
#[derive(Clone, Debug)]
pub struct WhisperConfig {
    pub name: String,
    pub download_root: String,
    pub device: String,
}

pub fn default_device_cpu() -> (r: String)
    ensures
        r@ == "cpu"@,
{
    owned("cpu")
}

/// Settings of FunASR.
#[derive(Clone, Debug)]
pub struct FunASRConfig {
    pub model_name: String,
    pub vad_model: String,
    pub punc_model: String,
    pub device: String,
    pub disable_update: bool,
    pub ncpu: i32,
    /// "ms" or "hf".
    pub hub: String,
    pub use_itn: bool,
    pub language: String,
}

pub fn default_funasr_model() -> (r: String)
    ensures
        r@ == "iic/SenseVoiceSmall"@,
{
    owned("iic/SenseVoiceSmall")
}

pub fn default_vad_model() -> (r: String)
    ensures
        r@ == "fsmn-vad"@,
{
    owned("fsmn-vad")
}

pub fn default_punc_model() -> (r: String)
    ensures
        r@ == "ct-punc"@,
{
    owned("ct-punc")
}

pub fn default_ncpu() -> (r: i32)
    ensures
        r == 4,
{
    4
}

pub fn default_hub() -> (r: String)
    ensures
        r@ == "ms"@,
{
    owned("ms")
}

/// Settings of Groq Whisper.
#[derive(Clone, Debug)]
pub struct GroqWhisperASRConfig {
    pub api_key: String,
    pub model: String,
    pub lang: Option<String>,
}

pub fn default_groq_model() -> (r: String)
    ensures
        r@ == "whisper-large-v3-turbo"@,
{
    owned("whisper-large-v3-turbo")
}

/// Settings of Sherpa Onnx.
#[derive(Clone, Debug)]
pub struct SherpaOnnxASRConfig {
    pub model_type: String,
    pub encoder: Option<String>,
    pub decoder: Option<String>,
    pub joiner: Option<String>,
    pub paraformer: Option<String>,
    pub nemo_ctc: Option<String>,
    pub wenet_ctc: Option<String>,
    pub tdnn_model: Option<String>,
    pub whisper_encoder: Option<String>,
    pub whisper_decoder: Option<String>,
    pub sense_voice: Option<String>,
    pub tokens: String,
    pub num_threads: i32,
    pub use_itn: bool,
    pub provider: String,
}

pub fn default_num_threads() -> (r: i32)
    ensures
        r == 4,
{
    4
}

pub fn default_provider_cpu() -> (r: String)
    ensures
        r@ == "cpu"@,
{
    owned("cpu")
}

/// Settings of speech recognition: the chosen engine and the settings of each.
#[derive(Clone, Debug)]
pub struct ASRConfig {
    pub asr_model: String,
    pub azure_asr: Option<AzureASRConfig>,
    pub faster_whisper: Option<FasterWhisperConfig>,
    pub whisper_cpp: Option<WhisperCPPConfig>,
    pub whisper: Option<WhisperConfig>,
    pub fun_asr: Option<FunASRConfig>,
    pub groq_whisper_asr: Option<GroqWhisperASRConfig>,
    pub sherpa_onnx_asr: Option<SherpaOnnxASRConfig>,
}

/// Settings of Azure speech synthesis.
#[derive(Clone, Debug)]
pub struct AzureTTSConfig {
    pub api_key: String,
    pub region: String,
    pub voice: String,
    pub pitch: String,
    pub rate: String,
}

/// Settings of Bark.
#[derive(Clone, Debug)]
pub struct BarkTTSConfig {
    pub voice: String,
}

/// Settings of Edge TTS.
#[derive(Clone, Debug)]
pub struct EdgeTTSConfig {
    pub voice: String,
}

pub fn default_human_name() -> (r: String)
    ensures
        r@ == "Human"@,
{
    owned("Human")
}

/// Settings of Melo TTS.
#[derive(Clone, Debug)]
pub struct MeloTTSConfig {
    pub speaker: String,
    pub language: String,
    pub device: String,
    pub speed: Num,
}

pub fn default_speed() -> (r: Num)
    ensures
        r matches Num::Decimal(d) && d@ == "1.0"@,
{
    Num::Decimal(owned("1.0"))
}

/// Settings of an OpenAI-compatible provider.
#[derive(Clone, Debug)]
pub struct OpenAICompatibleConfig {
    pub base: StatelessLLMBaseConfig,
    pub base_url: String,
    pub llm_api_key: String,
    pub model: String,
    pub organization_id: Option<String>,
    pub project_id: Option<String>,
    pub temperature: Num,
}

pub fn default_temperature() -> (r: Num)
    ensures
        r matches Num::Decimal(d) && d@ == "1.0"@,
{
    Num::Decimal(owned("1.0"))
}

/// Settings of an Ollama server.
#[derive(Clone, Debug)]
pub struct OllamaConfig {
    pub openai_compatible: OpenAICompatibleConfig,
    pub keep_alive: Num,
    pub unload_at_exit: bool,
}

pub fn default_keep_alive() -> (r: Num)
    ensures
        r matches Num::Decimal(d) && d@ == "-1.0"@,
{
    Num::Decimal(owned("-1.0"))
}

/// Settings of the official OpenAI service.
#[derive(Clone, Debug)]
pub struct OpenAIConfig {
    pub openai_compatible: OpenAICompatibleConfig,
}

/// Settings of the Gemini service.
#[derive(Clone, Debug)]
pub struct GeminiConfig {
    pub openai_compatible: OpenAICompatibleConfig,
}

/// Settings of the Mistral service.
#[derive(Clone, Debug)]
pub struct MistralConfig {
    pub openai_compatible: OpenAICompatibleConfig,
}

/// Settings of the Zhipu service.
#[derive(Clone, Debug)]
pub struct ZhipuConfig {
    pub openai_compatible: OpenAICompatibleConfig,
}

/// Settings of the Deepseek service.
#[derive(Clone, Debug)]
pub struct DeepseekConfig {
    pub openai_compatible: OpenAICompatibleConfig,
}

/// Settings of the Groq service.
#[derive(Clone, Debug)]
pub struct GroqConfig {
    pub openai_compatible: OpenAICompatibleConfig,
}

/// The settings of each model provider, as given.
#[derive(Debug)]
pub struct StatelessLLMConfigs {
    pub openai_compatible_llm: Option<ConfigValue>,
    pub ollama_llm: Option<ConfigValue>,
    pub openai_llm: Option<ConfigValue>,
    pub gemini_llm: Option<ConfigValue>,
    pub zhipu_llm: Option<ConfigValue>,
    pub deepseek_llm: Option<ConfigValue>,
    pub groq_llm: Option<ConfigValue>,
    pub claude_llm: Option<ConfigValue>,
    pub llama_cpp_llm: Option<ConfigValue>,
    pub mistral_llm: Option<ConfigValue>,
}

/// Settings of the Mem0 vector store.
#[derive(Debug)]
pub struct Mem0VectorStoreConfig {
    pub provider: String,
    pub config: ConfigValue,
}

/// Settings of the model Mem0 uses.
#[derive(Debug)]
pub struct Mem0LLMConfig {
    pub provider: String,
    pub config: ConfigValue,
}

/// Settings of the embedder Mem0 uses.
#[derive(Debug)]
pub struct Mem0EmbedderConfig {
    pub provider: String,
    pub config: ConfigValue,
}

/// Settings of Mem0.
#[derive(Debug)]
pub struct Mem0Config {
    pub vector_store: Mem0VectorStoreConfig,
    pub llm: Mem0LLMConfig,
    pub embedder: Mem0EmbedderConfig,
}

/// The settings of each agent kind.
#[derive(Debug)]
pub struct AgentSettings {
    pub basic_memory_agent: Option<BasicMemoryAgentConfig>,
    pub mem0_agent: Option<Mem0Config>,
    pub hume_ai_agent: Option<HumeAIConfig>,
}

/// The chosen agent kind, the settings of each kind, and the model providers, as given.
#[derive(Debug)]
pub struct AgentConfig {
    /// "basic_memory_agent", "mem0_agent" or "hume_ai_agent".
    pub conversation_agent_choice: String,
    pub agent_settings: ConfigValue,
    pub llm_configs: ConfigValue,
}

/// A character: who it is, and how it thinks, hears and speaks.
#[derive(Debug)]
pub struct CharacterConfig {
    pub conf_name: String,
    pub conf_uid: String,
    pub live2d_model_name: String,
    pub character_name: String,
    pub human_name: String,
    pub avatar: Option<String>,
    pub persona_prompt: String,
    pub agent_config: AgentConfig,
    pub asr_config: ASRConfig,
    pub tts_config: TTSConfig,
    pub tts_preprocessor_config: TTSPreprocessorConfig,
}

impl CharacterConfig {
    /// A character needs a persona prompt.
    pub fn validate(&self) -> (r: Result<(), String>)
        ensures
            r is Ok <==> self.persona_prompt@.len() > 0,
    {
        if self.persona_prompt.unicode_len() == 0 {
            return Err(owned("Persona_prompt cannot be empty. Please provide a persona prompt."));
        }
        Ok(())
    }
}

/// The whole configuration.
#[derive(Debug)]
pub struct Config {
    pub system_config: SystemConfig,
    pub character_config: CharacterConfig,
}

} // verus!
