use vaidol_core::agent::{Agent, AgentError, BasicMemoryAgent};
use vaidol_core::config_value::{ConfigValue, Num};
use vaidol_core::factory::{create_agent, create_llm, AgentFactory, ConfigError};
use vaidol_core::history::HistoryMessage;
use vaidol_core::llm::{
    ChatMessage, ContentPart, LlmAdapter, LlmFailure, LlamaCppLLM, MessageContent, Role,
};
use vaidol_core::memory::to_text_prompt;
use vaidol_core::types::{
    BatchInput, DisplayText, ImageData, ImageSource, OutputUnit, TextData, TextSource,
};

fn table(entries: Vec<(&str, ConfigValue)>) -> ConfigValue {
    ConfigValue::Table(entries.into_iter().map(|(k, v)| (k.to_string(), v)).collect())
}

fn text(s: &str) -> ConfigValue {
    ConfigValue::Str(s.to_string())
}

fn agent(method: &str) -> BasicMemoryAgent {
    BasicMemoryAgent::new(
        LlmAdapter::LlamaCpp(LlamaCppLLM::new(String::new())),
        "Be kind.".to_string(),
        true,
        "pysbd".to_string(),
        method.to_string(),
    )
}

fn input(s: &str) -> BatchInput {
    BatchInput::new(vec![TextData {
        source: TextSource::Input,
        content: s.to_string(),
        from_name: None,
    }])
}

fn contents(a: &BasicMemoryAgent) -> Vec<(Role, String)> {
    a.memory().iter().map(|e| (e.role, e.content.clone())).collect()
}

#[test]
fn factory_names_missing_provider() {
    let settings = table(vec![(
        "basic_memory_agent",
        table(vec![("llm_provider", text("missing_provider"))]),
    )]);
    let llm_configs = table(vec![("ollama_llm", table(vec![]))]);
    match create_agent("basic_memory_agent", &settings, &llm_configs, "sys") {
        Err(ConfigError::ProviderNotConfigured(p)) => assert_eq!(p, "missing_provider"),
        other => panic!("unexpected: {:?}", other.map(|_| ())),
    }
    let err = AgentFactory::create_agent("basic_memory_agent", &settings, &llm_configs, "sys")
        .err()
        .unwrap();
    assert!(err.message().contains("missing_provider"));
}

#[test]
fn factory_rejects_unknown_kind() {
    let empty = table(vec![]);
    match create_agent("robot", &empty, &empty, "sys") {
        Err(ConfigError::UnsupportedAgentType(k)) => assert_eq!(k, "robot"),
        _ => panic!("expected an unsupported agent type"),
    }
}

#[test]
fn factory_builds_memory_agent_with_defaults() {
    let settings = table(vec![(
        "basic_memory_agent",
        table(vec![("llm_provider", text("openai_llm"))]),
    )]);
    let llm_configs = table(vec![(
        "openai_llm",
        table(vec![("model", text("gpt")), ("interrupt_method", text("system"))]),
    )]);
    match create_agent("basic_memory_agent", &settings, &llm_configs, "sys").unwrap() {
        Agent::BasicMemory(a) => {
            assert_eq!(a.system(), "sys");
            assert_eq!(a.interrupt_method(), "system");
            assert!(a.faster_first_response());
            assert_eq!(a.segment_method(), "pysbd");
            match a.llm() {
                LlmAdapter::OpenAICompatible(o) => {
                    assert_eq!(o.model, "gpt");
                    assert_eq!(o.api_key, "z");
                    assert!(matches!(&o.temperature, Num::Decimal(d) if d == "1.0"));
                }
                _ => panic!("expected an OpenAI-compatible model"),
            }
        }
        _ => panic!("expected the memory agent"),
    }
}

#[test]
fn factory_mem0_names_missing_field() {
    let settings = table(vec![("mem0_agent", table(vec![("base_url", text("u"))]))]);
    match create_agent("mem0_agent", &settings, &table(vec![]), "sys") {
        Err(ConfigError::MissingField(f)) => assert_eq!(f, "model"),
        _ => panic!("expected a missing field"),
    }
}

#[test]
fn factory_hume_defaults() {
    let settings = table(vec![(
        "hume_ai_agent",
        table(vec![("idle_timeout", ConfigValue::Number(Num::UInt(30)))]),
    )]);
    match create_agent("hume_ai_agent", &settings, &table(vec![]), "sys").unwrap() {
        Agent::HumeAI(h) => {
            assert_eq!(h.host, "api.hume.ai");
            assert_eq!(h.idle_timeout, 30);
            assert!(h.api_key.is_none());
        }
        _ => panic!("expected the Hume agent"),
    }
}

#[test]
fn llm_factory_defaults_and_errors() {
    match create_llm("claude_llm", Some("S"), &table(vec![])).unwrap() {
        LlmAdapter::Claude(c) => {
            assert!(c.model.is_none());
            assert_eq!(c.system, "S");
        }
        _ => panic!("expected the ClaudeLLM adapter"),
    }
    match create_llm("ollama_llm", None, &table(vec![])).unwrap() {
        LlmAdapter::Ollama(o) => {
            assert!(o.unload_at_exit);
            assert!(matches!(&o.keep_alive, Num::Decimal(d) if d == "-1.0"));
        }
        _ => panic!("expected Ollama"),
    }
    assert!(matches!(
        create_llm("nope", None, &table(vec![])),
        Err(ConfigError::UnsupportedProvider(p)) if p == "nope"
    ));
}

#[test]
fn system_prompt_gets_interrupt_clause() {
    let a = agent("user");
    assert_eq!(
        a.system(),
        "Be kind.\n\nIf you received `[interrupted by user]` signal, you were interrupted."
    );
    assert_eq!(agent("system").system(), "Be kind.");
}

#[test]
fn add_message_keeps_order() {
    let mut a = agent("user");
    for (i, w) in ["one", "two", "three"].iter().enumerate() {
        a.add_message(&MessageContent::Text(w.to_string()), Role::User, None);
        assert_eq!(a.memory().len(), i + 1);
    }
    let got: Vec<String> = a.memory().iter().map(|e| e.content.clone()).collect();
    assert_eq!(got, vec!["one", "two", "three"]);
}

#[test]
fn add_message_joins_text_parts_and_keeps_display() {
    let mut a = agent("user");
    let parts = MessageContent::Parts(vec![
        ContentPart::Text("ab".to_string()),
        ContentPart::ImageUrl("img".to_string()),
        ContentPart::Text("cd".to_string()),
    ]);
    let shown = DisplayText {
        text: String::new(),
        name: Some("Mia".to_string()),
        avatar: None,
    };
    a.add_message(&parts, Role::Assistant, Some(&shown));
    assert_eq!(a.memory()[0].content, "abcd");
    assert_eq!(a.memory()[0].name.as_deref(), Some("Mia"));
}

#[test]
fn handle_interrupt_twice_is_idempotent() {
    let mut a = agent("user");
    a.add_message(&MessageContent::Text("hi".to_string()), Role::User, None);
    a.add_message(&MessageContent::Text("long answer".to_string()), Role::Assistant, None);
    a.handle_interrupt("long");
    let first = contents(&a);
    assert_eq!(
        first,
        vec![
            (Role::User, "hi".to_string()),
            (Role::Assistant, "long...".to_string()),
            (Role::User, "[interrupted by user]".to_string()),
        ]
    );
    a.handle_interrupt("other");
    assert_eq!(contents(&a), first);
}

#[test]
fn interrupt_on_empty_memory_records_heard_text() {
    let mut a = agent("user");
    a.handle_interrupt("so");
    assert_eq!(
        contents(&a),
        vec![
            (Role::Assistant, "so...".to_string()),
            (Role::User, "[interrupted by user]".to_string()),
        ]
    );
}

#[test]
fn interrupt_after_user_message_adds_heard_text() {
    let mut a = agent("system");
    a.add_message(&MessageContent::Text("hi".to_string()), Role::User, None);
    a.handle_interrupt("he");
    assert_eq!(
        contents(&a),
        vec![
            (Role::User, "hi".to_string()),
            (Role::Assistant, "he...".to_string()),
            (Role::System, "[interrupted by user]".to_string()),
        ]
    );
}

#[test]
fn turn_resets_flag_and_records_reply() {
    let mut a = agent("user");
    a.handle_interrupt("x");
    assert!(a.interrupt_handled());
    let msgs = a.begin_turn(&input("hello"));
    assert!(!a.interrupt_handled());
    assert_eq!(msgs.len(), 3);
    assert!(matches!(&msgs[2], ChatMessage { role: Role::User, content: MessageContent::Text(t) } if t == "hello"));
    let out = a
        .finish_turn(Ok(vec!["Hi".to_string(), " there".to_string()]))
        .unwrap();
    match out {
        OutputUnit::Sentence(s) => {
            assert_eq!(s.tts_text, "Hi there");
            assert_eq!(s.display_text.name.as_deref(), Some("AI"));
        }
        _ => panic!("expected a sentence"),
    }
    assert_eq!(a.memory().last().unwrap().content, "Hi there");
    let before = a.memory().len();
    let err = a.finish_turn(Err(LlmFailure::Call("down".to_string())));
    assert!(matches!(err, Err(AgentError::Generation(LlmFailure::Call(m))) if m == "down"));
    assert_eq!(a.memory().len(), before);
}

#[test]
fn text_prompt_describes_images() {
    let mut b = BatchInput::new(vec![
        TextData { source: TextSource::Input, content: "look".to_string(), from_name: None },
        TextData { source: TextSource::Clipboard, content: "c".to_string(), from_name: None },
    ]);
    b.images = Some(vec![
        ImageData { source: ImageSource::Camera, data: "d1".to_string(), mime_type: "image/png".to_string() },
        ImageData { source: ImageSource::Upload, data: "d2".to_string(), mime_type: "image/png".to_string() },
    ]);
    assert_eq!(
        to_text_prompt(&b),
        "look\n[Clipboard content: c]\n\nImages in this message:\n- Image 1 (captured from camera)\n- Image 2 (uploaded)"
    );
}

#[test]
fn memory_from_history_translates_roles() {
    let mut a = agent("system");
    let h = |role: &str, c: &str| HistoryMessage {
        role: role.to_string(),
        timestamp: String::new(),
        content: c.to_string(),
        name: None,
        avatar: None,
    };
    a.set_memory_from_history::<String>(Ok(vec![h("human", "q"), h("ai", "a")]));
    assert_eq!(
        contents(&a),
        vec![
            (Role::System, "Be kind.".to_string()),
            (Role::User, "q".to_string()),
            (Role::Assistant, "a".to_string()),
        ]
    );
    a.set_memory_from_history::<String>(Err("unreadable".to_string()));
    assert_eq!(contents(&a), vec![(Role::System, "Be kind.".to_string())]);
}

#[test]
fn group_context_message() {
    let mut a = agent("user");
    a.start_group_conversation("Ann", &vec!["Bo".to_string(), "Cy".to_string()]);
    assert_eq!(
        a.memory()[0].content,
        "You are in a group conversation with Ann and other AIs: Bo, Cy"
    );
}

#[test]
fn stub_agents_are_not_served() {
    let settings = table(vec![(
        "mem0_agent",
        table(vec![("base_url", text("u")), ("model", text("m")), ("mem0_config", table(vec![]))]),
    )]);
    let mut ag = create_agent("mem0_agent", &settings, &table(vec![]), "s").unwrap();
    assert!(matches!(ag.begin_turn(&input("x")), Err(AgentError::NotImplemented(k)) if k == "mem0_agent"));
}

#[test]
fn llama_cpp_is_not_implemented() {
    let l = LlmAdapter::LlamaCpp(LlamaCppLLM::new("m".to_string()));
    assert!(matches!(l.prepare_request(vec![], None), Err(LlmFailure::NotImplemented(_))));
}

#[test]
fn agent_variant_runs_a_turn() {
    let settings = table(vec![(
        "basic_memory_agent",
        table(vec![("llm_provider", text("ollama_llm"))]),
    )]);
    let llm_configs = table(vec![("ollama_llm", table(vec![("model", text("m"))]))]);
    let mut ag = create_agent("basic_memory_agent", &settings, &llm_configs, "sys").unwrap();
    let msgs = ag.begin_turn(&input("hey")).unwrap();
    let req = ag.llm().unwrap().prepare_request(msgs, ag.system()).unwrap();
    assert_eq!(req.messages.len(), 2);
    assert_eq!(req.model.as_deref(), Some("m"));
    let out = ag.finish_turn(Ok(vec!["yo".to_string()])).unwrap();
    assert!(matches!(out, OutputUnit::Sentence(ref s) if s.tts_text == "yo"));
}
