use vstd::prelude::*;

use crate::agent::{prompt_for, Agent, BasicMemoryAgent, HumeAIAgent, Mem0LLM};
use crate::config_value::{ConfigValue, Num};
use crate::llm::{ClaudeLLM, LlamaCppLLM, LlmAdapter, OllamaLLM, OpenAICompatibleLLM};
use crate::memory::{opt_view, EntryView};
use crate::text::{joined, owned, text_eq};

verus! {

/// Why an agent or a model could not be built from configuration.
#[derive(Clone, Debug)]
pub enum ConfigError {
    /// The settings of the chosen agent kind are absent; it names the kind.
    MissingSettings(String),
    /// A required setting is absent; it names the setting.
    MissingField(String),
    /// No configuration is given for the named model provider.
    ProviderNotConfigured(String),
    /// The named agent kind is not known.
    UnsupportedAgentType(String),
    /// The named model provider is not known.
    UnsupportedProvider(String),
}

impl ConfigError {
    /// The name that the error is about.
    pub open spec fn subject(self) -> Seq<char> {
        match self {
            ConfigError::MissingSettings(s) => s@,
            ConfigError::MissingField(s) => s@,
            ConfigError::ProviderNotConfigured(s) => s@,
            ConfigError::UnsupportedAgentType(s) => s@,
            ConfigError::UnsupportedProvider(s) => s@,
        }
    }

    /// The lead-in of the message of each kind of error.
    pub open spec fn lead(self) -> Seq<char> {
        match self {
            ConfigError::MissingSettings(_) => "Settings not found for agent: "@,
            ConfigError::MissingField(_) => "Missing required field: "@,
            ConfigError::ProviderNotConfigured(_) => "Configuration not found for LLM provider: "@,
            ConfigError::UnsupportedAgentType(_) => "Unsupported agent type: "@,
            ConfigError::UnsupportedProvider(_) => "Unsupported LLM provider: "@,
        }
    }

    /// A message that names what went wrong.
    pub fn message(&self) -> (r: String)
        ensures
            r@ == self.lead() + self.subject(),
    {
        match self {
            ConfigError::MissingSettings(s) => joined("Settings not found for agent: ", s.as_str()),
            ConfigError::MissingField(s) => joined("Missing required field: ", s.as_str()),
            ConfigError::ProviderNotConfigured(s) => joined(
                "Configuration not found for LLM provider: ",
                s.as_str(),
            ),
            ConfigError::UnsupportedAgentType(s) => joined("Unsupported agent type: ", s.as_str()),
            ConfigError::UnsupportedProvider(s) => joined("Unsupported LLM provider: ", s.as_str()),
        }
    }
}

/// The text under `key`, or `default` when there is no text there.
pub open spec fn str_or(v: ConfigValue, key: Seq<char>, default: Seq<char>) -> Seq<char> {
    match v.spec_str_at(key) {
        Some(s) => s,
        None => default,
    }
}

/// The flag under `key`, or `default`.
pub open spec fn bool_or(v: ConfigValue, key: Seq<char>, default: bool) -> bool {
    match v.spec_bool_at(key) {
        Some(b) => b,
        None => default,
    }
}

/// The integer under `key`, or `default`.
pub open spec fn u64_or(v: ConfigValue, key: Seq<char>, default: u64) -> u64 {
    match v.spec_u64_at(key) {
        Some(n) => n,
        None => default,
    }
}

/// `n` is the number under `key`, or the decimal `default` when there is none.
pub open spec fn num_or(n: Num, v: ConfigValue, key: Seq<char>, default: Seq<char>) -> bool {
    match v.spec_num_at(key) {
        Some(m) => n == m,
        None => n matches Num::Decimal(d) && d@ == default,
    }
}

/// The providers served through the OpenAI-compatible protocol.
pub open spec fn is_openai_family(p: Seq<char>) -> bool {
    p == "openai_compatible_llm"@ || p == "openai_llm"@ || p == "gemini_llm"@ || p == "zhipu_llm"@
        || p == "deepseek_llm"@ || p == "groq_llm"@ || p == "mistral_llm"@
}

/// The providers that can be built.
pub open spec fn is_known_provider(p: Seq<char>) -> bool {
    is_openai_family(p) || p == "ollama_llm"@ || p == "claude_llm"@ || p == "llama_cpp_llm"@
}

/// An OpenAI-compatible model made from `config`, with its defaults.
pub open spec fn openai_from(o: OpenAICompatibleLLM, config: ConfigValue) -> bool {
    &&& o.model@ == str_or(config, "model"@, ""@)
    &&& o.base_url@ == str_or(config, "base_url"@, ""@)
    &&& o.api_key@ == str_or(config, "llm_api_key"@, "z"@)
    &&& opt_view(o.organization_id) == config.spec_str_at("organization_id"@)
    &&& opt_view(o.project_id) == config.spec_str_at("project_id"@)
    &&& num_or(o.temperature, config, "temperature"@, "1.0"@)
}

/// The model that `provider` and `config` describe.
pub open spec fn llm_from(
    llm: LlmAdapter,
    provider: Seq<char>,
    system: Option<Seq<char>>,
    config: ConfigValue,
) -> bool {
    if is_openai_family(provider) {
        llm matches LlmAdapter::OpenAICompatible(o) && openai_from(o, config)
    } else if provider == "ollama_llm"@ {
        match llm {
            LlmAdapter::Ollama(o) => {
                &&& openai_from(o.inner, config)
                &&& num_or(o.keep_alive, config, "keep_alive"@, "-1.0"@)
                &&& o.unload_at_exit == bool_or(config, "unload_at_exit"@, true)
            },
            _ => false,
        }
    } else if provider == "claude_llm"@ {
        match llm {
            LlmAdapter::Claude(c) => {
                &&& c.system@ == match system {
                    Some(s) => s,
                    None => ""@,
                }
                &&& c.base_url@ == str_or(config, "base_url"@, ""@)
                &&& opt_view(c.model) == config.spec_str_at("model"@)
                &&& c.api_key@ == str_or(config, "llm_api_key"@, ""@)
            },
            _ => false,
        }
    } else {
        llm matches LlmAdapter::LlamaCpp(l) && l.model_path@ == str_or(config, "model_path"@, ""@)
    }
}

/// The outcome of building the model for `provider`: the model its configuration describes,
/// or, for an unknown provider, an error that names it.
pub open spec fn llm_outcome(
    r: Result<LlmAdapter, ConfigError>,
    provider: Seq<char>,
    system: Option<Seq<char>>,
    config: ConfigValue,
) -> bool {
    match r {
        Ok(llm) => is_known_provider(provider) && llm_from(llm, provider, system, config),
        Err(e) => !is_known_provider(provider) && (e matches ConfigError::UnsupportedProvider(p)
            && p@ == provider),
    }
}

/// The plain value of an optional text argument.
pub open spec fn opt_str(s: Option<&str>) -> Option<Seq<char>> {
    match s {
        Some(t) => Some(t@),
        None => None,
    }
}

/// The text under `key`, or `default`.
pub fn text_or(v: &ConfigValue, key: &str, default: &str) -> (r: String)
    ensures
        r@ == str_or(*v, key@, default@),
{
    match v.str_at(key) {
        Some(s) => owned(s),
        None => owned(default),
    }
}

/// The text under `key`, if any.
pub fn text_opt(v: &ConfigValue, key: &str) -> (r: Option<String>)
    ensures
        opt_view(r) == v.spec_str_at(key@),
{
    match v.str_at(key) {
        Some(s) => Some(owned(s)),
        None => None,
    }
}

fn number_or(v: &ConfigValue, key: &str, default: &str) -> (r: Num)
    ensures
        num_or(r, *v, key@, default@),
{
    match v.num_at(key) {
        Some(n) => n,
        None => Num::Decimal(owned(default)),
    }
}

fn openai_family(p: &str) -> (r: bool)
    ensures
        r == is_openai_family(p@),
{
    text_eq(p, "openai_compatible_llm") || text_eq(p, "openai_llm") || text_eq(p, "gemini_llm")
        || text_eq(p, "zhipu_llm") || text_eq(p, "deepseek_llm") || text_eq(p, "groq_llm")
        || text_eq(p, "mistral_llm")
}

fn openai_config(config: &ConfigValue) -> (r: OpenAICompatibleLLM)
    ensures
        openai_from(r, *config),
{
    OpenAICompatibleLLM {
        model: text_or(config, "model", ""),
        base_url: text_or(config, "base_url", ""),
        api_key: text_or(config, "llm_api_key", "z"),
        organization_id: text_opt(config, "organization_id"),
        project_id: text_opt(config, "project_id"),
        temperature: number_or(config, "temperature", "1.0"),
    }
}

/// Builds the stateless model for `llm_provider` from its configuration, with the documented
/// defaults for absent settings; an unknown provider is an error that names it.
pub fn create_llm(llm_provider: &str, system_prompt: Option<&str>, config: &ConfigValue) -> (r:
    Result<LlmAdapter, ConfigError>)
    ensures
        llm_outcome(r, llm_provider@, opt_str(system_prompt), *config),
{
    if openai_family(llm_provider) {
        Ok(LlmAdapter::OpenAICompatible(openai_config(config)))
    } else if text_eq(llm_provider, "ollama_llm") {
        Ok(
            LlmAdapter::Ollama(
                OllamaLLM {
                    inner: openai_config(config),
                    keep_alive: number_or(config, "keep_alive", "-1.0"),
                    unload_at_exit: match config.bool_at("unload_at_exit") {
                        Some(b) => b,
                        None => true,
                    },
                },
            ),
        )
    } else if text_eq(llm_provider, "claude_llm") {
        Ok(
            LlmAdapter::Claude(
                ClaudeLLM {
                    system: match system_prompt {
                        Some(s) => owned(s),
                        None => owned(""),
                    },
                    base_url: text_or(config, "base_url", ""),
                    model: text_opt(config, "model"),
                    api_key: text_or(config, "llm_api_key", ""),
                },
            ),
        )
    } else if text_eq(llm_provider, "llama_cpp_llm") {
        Ok(LlmAdapter::LlamaCpp(LlamaCppLLM::new(text_or(config, "model_path", ""))))
    } else {
        Err(ConfigError::UnsupportedProvider(owned(llm_provider)))
    }
}

/// Builds stateless models from configuration.
pub struct StatelessLLMFactory;

impl StatelessLLMFactory {
    /// Builds the model for `llm_provider`; see [`create_llm`].
    pub fn create_llm(llm_provider: &str, system_prompt: Option<&str>, config: &ConfigValue) -> (r:
        Result<LlmAdapter, ConfigError>)
        ensures
            llm_outcome(r, llm_provider@, opt_str(system_prompt), *config),
    {
        create_llm(llm_provider, system_prompt, config)
    }
}

/// The agent that the settings describe for the memory-backed kind.
pub open spec fn basic_outcome(
    r: Result<Agent, ConfigError>,
    settings: ConfigValue,
    llm_configs: ConfigValue,
    system: Seq<char>,
) -> bool {
    match settings.spec_get("basic_memory_agent"@) {
        None => r matches Err(ConfigError::MissingSettings(k)) && k@ == "basic_memory_agent"@,
        Some(st) => match st.spec_str_at("llm_provider"@) {
            None => r matches Err(ConfigError::MissingField(f)) && f@ == "llm_provider"@,
            Some(p) => match llm_configs.spec_get(p) {
                None => r matches Err(ConfigError::ProviderNotConfigured(q)) && q@ == p,
                Some(lc) => if !is_known_provider(p) {
                    r matches Err(ConfigError::UnsupportedProvider(q)) && q@ == p
                } else {
                    match r {
                        Ok(Agent::BasicMemory(a)) => {
                            let method = str_or(lc, "interrupt_method"@, "user"@);
                            &&& llm_from(a.spec_llm(), p, Some(system), lc)
                            &&& a.spec_memory() == Seq::<EntryView>::empty()
                            &&& !a.spec_interrupt_handled()
                            &&& a.spec_interrupt_method() == method
                            &&& a.spec_system() == prompt_for(system, method)
                            &&& a.spec_faster_first_response() == bool_or(
                                st,
                                "faster_first_response"@,
                                true,
                            )
                            &&& a.spec_segment_method() == str_or(st, "segment_method"@, "pysbd"@)
                        },
                        _ => false,
                    }
                },
            },
        },
    }
}

/// The agent that the settings describe for the Mem0 kind.
pub open spec fn mem0_outcome(
    r: Result<Agent, ConfigError>,
    settings: ConfigValue,
    system: Seq<char>,
) -> bool {
    match settings.spec_get("mem0_agent"@) {
        None => r matches Err(ConfigError::MissingSettings(k)) && k@ == "mem0_agent"@,
        Some(st) => if st.spec_get("base_url"@) is None {
            r matches Err(ConfigError::MissingField(f)) && f@ == "base_url"@
        } else if st.spec_get("model"@) is None {
            r matches Err(ConfigError::MissingField(f)) && f@ == "model"@
        } else if st.spec_get("mem0_config"@) is None {
            r matches Err(ConfigError::MissingField(f)) && f@ == "mem0_config"@
        } else {
            r matches Ok(Agent::Mem0(m)) && m.user_id@ == str_or(st, "user_id"@, "default"@)
                && m.system@ == system
        },
    }
}

/// The agent that the settings describe for the Hume AI kind.
pub open spec fn hume_outcome(r: Result<Agent, ConfigError>, settings: ConfigValue) -> bool {
    match settings.spec_get("hume_ai_agent"@) {
        None => r matches Err(ConfigError::MissingSettings(k)) && k@ == "hume_ai_agent"@,
        Some(st) => match r {
            Ok(Agent::HumeAI(h)) => {
                &&& opt_view(h.api_key) == st.spec_str_at("api_key"@)
                &&& h.host@ == str_or(st, "host"@, "api.hume.ai"@)
                &&& opt_view(h.config_id) == st.spec_str_at("config_id"@)
                &&& h.idle_timeout == u64_or(st, "idle_timeout"@, 15) as u32
            },
            _ => false,
        },
    }
}

/// The outcome of building an agent of kind `choice`.
pub open spec fn agent_outcome(
    r: Result<Agent, ConfigError>,
    choice: Seq<char>,
    settings: ConfigValue,
    llm_configs: ConfigValue,
    system: Seq<char>,
) -> bool {
    if choice == "basic_memory_agent"@ {
        basic_outcome(r, settings, llm_configs, system)
    } else if choice == "mem0_agent"@ {
        mem0_outcome(r, settings, system)
    } else if choice == "hume_ai_agent"@ {
        hume_outcome(r, settings)
    } else {
        r matches Err(ConfigError::UnsupportedAgentType(c)) && c@ == choice
    }
}

fn create_basic_agent(
    settings: &ConfigValue,
    llm_configs: &ConfigValue,
    system_prompt: &str,
) -> (r: Result<Agent, ConfigError>)
    ensures
        basic_outcome(r, *settings, *llm_configs, system_prompt@),
{
    let basic = match settings.get("basic_memory_agent") {
        Some(b) => b,
        None => return Err(ConfigError::MissingSettings(owned("basic_memory_agent"))),
    };
    let provider = match basic.str_at("llm_provider") {
        Some(p) => p,
        None => return Err(ConfigError::MissingField(owned("llm_provider"))),
    };
    let llm_config = match llm_configs.get(provider) {
        Some(c) => c,
        None => return Err(ConfigError::ProviderNotConfigured(owned(provider))),
    };
    let interrupt_method = text_or(llm_config, "interrupt_method", "user");
    let llm = match create_llm(provider, Some(system_prompt), llm_config) {
        Ok(l) => l,
        Err(e) => return Err(e),
    };
    let faster_first_response = match basic.bool_at("faster_first_response") {
        Some(b) => b,
        None => true,
    };
    let segment_method = text_or(basic, "segment_method", "pysbd");
    Ok(
        Agent::BasicMemory(
            BasicMemoryAgent::new(
                llm,
                owned(system_prompt),
                faster_first_response,
                segment_method,
                interrupt_method,
            ),
        ),
    )
}

fn create_mem0_agent(settings: &ConfigValue, system_prompt: &str) -> (r: Result<Agent, ConfigError>)
    ensures
        mem0_outcome(r, *settings, system_prompt@),
{
    let mem0 = match settings.get("mem0_agent") {
        Some(m) => m,
        None => return Err(ConfigError::MissingSettings(owned("mem0_agent"))),
    };
    if !mem0.has("base_url") {
        return Err(ConfigError::MissingField(owned("base_url")));
    }
    if !mem0.has("model") {
        return Err(ConfigError::MissingField(owned("model")));
    }
    if !mem0.has("mem0_config") {
        return Err(ConfigError::MissingField(owned("mem0_config")));
    }
    Ok(Agent::Mem0(Mem0LLM::new(text_or(mem0, "user_id", "default"), owned(system_prompt))))
}

#[verifier::truncate]
fn as_u32(n: u64) -> (r: u32)
    ensures
        r == n as u32,
{
    n as u32
}

fn create_hume_agent(settings: &ConfigValue) -> (r: Result<Agent, ConfigError>)
    ensures
        hume_outcome(r, *settings),
{
    let hume = match settings.get("hume_ai_agent") {
        Some(h) => h,
        None => return Err(ConfigError::MissingSettings(owned("hume_ai_agent"))),
    };
    let idle = match hume.u64_at("idle_timeout") {
        Some(n) => n,
        None => 15,
    };
    Ok(
        Agent::HumeAI(
            HumeAIAgent::new(
                text_opt(hume, "api_key"),
                text_or(hume, "host", "api.hume.ai"),
                text_opt(hume, "config_id"),
                as_u32(idle),
            ),
        ),
    )
}

/// Builds the agent of kind `conversation_agent_choice` from its settings. Each kind checks
/// the settings it needs and fails naming what is missing; the memory-backed agent gets the
/// model of its configured provider, which must be configured in `llm_configs`.
pub fn create_agent(
    conversation_agent_choice: &str,
    agent_settings: &ConfigValue,
    llm_configs: &ConfigValue,
    system_prompt: &str,
) -> (r: Result<Agent, ConfigError>)
    ensures
        agent_outcome(r, conversation_agent_choice@, *agent_settings, *llm_configs, system_prompt@),
{
    if text_eq(conversation_agent_choice, "basic_memory_agent") {
        create_basic_agent(agent_settings, llm_configs, system_prompt)
    } else if text_eq(conversation_agent_choice, "mem0_agent") {
        create_mem0_agent(agent_settings, system_prompt)
    } else if text_eq(conversation_agent_choice, "hume_ai_agent") {
        create_hume_agent(agent_settings)
    } else {
        Err(ConfigError::UnsupportedAgentType(owned(conversation_agent_choice)))
    }
}

/// Builds agents from configuration.
pub struct AgentFactory;

impl AgentFactory {
    /// Builds the configured agent; see [`create_agent`].
    pub fn create_agent(
        conversation_agent_choice: &str,
        agent_settings: &ConfigValue,
        llm_configs: &ConfigValue,
        system_prompt: &str,
    ) -> (r: Result<Agent, ConfigError>)
        ensures
            agent_outcome(
                r,
                conversation_agent_choice@,
                *agent_settings,
                *llm_configs,
                system_prompt@,
            ),
    {
        create_agent(conversation_agent_choice, agent_settings, llm_configs, system_prompt)
    }
}

} // verus!
