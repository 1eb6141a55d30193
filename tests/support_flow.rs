use vaidol_core::config::{config_format, is_background_file, ConfigFormat, SystemConfig};
use vaidol_core::config_manager::{join_path, Description, ServerPaths};
use vaidol_core::config_value::{ConfigValue, Num};
use vaidol_core::events::{group_update, unit_event, OutboundEvent};
use vaidol_core::orchestrator::{handle_conversation_trigger, Route, Signal, TurnInput, TurnStep};
use vaidol_core::service::{TTSClient, TTSConfig, TTSFactory, TTSResponse};
use vaidol_core::state::{generate_client_uid, ChatGroupManager};
use vaidol_core::text::decimal_text;
use vaidol_core::text_file::load_text_file_with_guess_encoding;
use vaidol_core::types::{Actions, AudioOutput, DisplayText, OutputUnit};

fn cfg(entries: Vec<(&str, &str)>) -> ConfigValue {
    ConfigValue::Table(
        entries
            .into_iter()
            .map(|(k, v)| (k.to_string(), ConfigValue::Str(v.to_string())))
            .collect(),
    )
}

#[test]
fn decodes_utf8_with_bom_and_gbk() {
    let mut bytes = vec![0xEF, 0xBB, 0xBF];
    bytes.extend_from_slice("héllo".as_bytes());
    assert_eq!(load_text_file_with_guess_encoding(&bytes), "héllo");
    assert_eq!(load_text_file_with_guess_encoding(&vec![0xD6, 0xD0, 0xCE, 0xC4]), "中文");
    assert_eq!(load_text_file_with_guess_encoding(&b"plain".to_vec()), "plain");
}

#[test]
fn client_uids_are_fresh_uuids() {
    let a = generate_client_uid();
    let b = generate_client_uid();
    assert_eq!(a.len(), 36);
    assert_ne!(a, b);
}

#[test]
fn config_files_by_extension() {
    assert_eq!(config_format("conf.JSONLD"), ConfigFormat::Json);
    assert_eq!(config_format("conf.json"), ConfigFormat::Json);
    assert_eq!(config_format("conf.yaml"), ConfigFormat::Yaml);
    assert!(is_background_file("sky.PNG"));
    assert!(is_background_file("a.jpeg"));
    assert!(!is_background_file("notes.txt"));
}

#[test]
fn system_defaults_and_paths() {
    let s = SystemConfig::default();
    assert_eq!(s.port, 12393);
    assert_eq!(s.avatars_dir, "config/shared/avatars");
    let p = ServerPaths {
        live2d_models_dir: String::new(),
        shared_assets_dir: "config/shared".to_string(),
        cache_dir: String::new(),
    };
    assert_eq!(p.backgrounds_dir(), "config/shared/backgrounds");
    assert_eq!(join_path("dir/", "x"), "dir/x");
    assert_eq!(join_path("", "x"), "x");
}

#[test]
fn descriptions_pick_language() {
    let d = Description::from_str("hello", Some("note"));
    assert_eq!(d.get_text("zh"), "hello");
    assert_eq!(d.get_notes("en"), Some("note"));
    assert_eq!(Description::from_str("x", None).get_notes("en"), None);
}

#[test]
fn tts_voice_and_language_by_engine() {
    let melo = TTSConfig {
        tts_model: "melo_tts".to_string(),
        azure_tts: None,
        bark_tts: None,
        edge_tts: None,
        melo_tts: Some(cfg(vec![("speaker", "EN-US"), ("language", "EN")])),
        other_configs: None,
    };
    assert_eq!(
        TTSFactory::extract_config_from_tts_config(&melo),
        (Some("EN-US".to_string()), Some("EN".to_string()))
    );
    let other = TTSConfig {
        tts_model: "x_tts".to_string(),
        azure_tts: None,
        bark_tts: None,
        edge_tts: None,
        melo_tts: None,
        other_configs: Some(cfg(vec![("speaker", "s1"), ("language", "ja")])),
    };
    let client = TTSFactory::create_tts(&other);
    assert_eq!(client.default_voice.as_deref(), Some("s1"));
    let req = client.request("hi", None, Some("en"));
    assert_eq!(req.voice.as_deref(), Some("s1"));
    assert_eq!(req.language.as_deref(), Some("en"));
}

#[test]
fn tts_result_reports_failure() {
    let ok = TTSResponse { audio_path: "a.wav".to_string(), success: true, error: None };
    assert_eq!(TTSClient::synthesis_result(ok), Ok("a.wav".to_string()));
    let bad = TTSResponse { audio_path: String::new(), success: false, error: None };
    assert_eq!(
        TTSClient::synthesis_result(bad),
        Err("TTS synthesis failed: Unknown error".to_string())
    );
}

#[test]
fn trigger_routes_turns() {
    let mut groups = ChatGroupManager::new();
    let r = handle_conversation_trigger(&groups, "u", Signal::TextInput, Some("hi")).unwrap();
    assert!(matches!(r.0, TurnInput::Text(ref t) if t == "hi"));
    assert_eq!(r.2.route(), Route::Single);
    let mut plan = r.2;
    assert!(matches!(plan.next_step(), TurnStep::Ask(ref s) if s == "u"));
    assert!(matches!(plan.next_step(), TurnStep::Done));
    groups.add_client_to_group("u", "v").unwrap();
    let r = handle_conversation_trigger(&groups, "v", Signal::AiSpeakSignal, None).unwrap();
    assert_eq!(r.1.as_deref(), Some("AI wants to speak something..."));
    assert_eq!(r.2.route(), Route::Group);
    let mut plan = r.2;
    assert!(matches!(plan.next_step(), TurnStep::Ask(ref s) if s == "u"));
    assert!(matches!(plan.next_step(), TurnStep::Ask(ref s) if s == "v"));
    assert!(matches!(plan.next_step(), TurnStep::Done));
    let copies: Vec<(String, bool)> =
        plan.copies().iter().map(|d| (d.client_uid.clone(), d.forwarded)).collect();
    assert_eq!(copies, vec![("v".to_string(), false), ("u".to_string(), true)]);
    assert!(matches!(
        handle_conversation_trigger(&groups, "v", Signal::MicAudioEnd, None),
        Some((TurnInput::Speech, None, _))
    ));
    assert!(handle_conversation_trigger(&groups, "v", Signal::FetchConfigs, None).is_none());
}

#[test]
fn events_carry_units_and_groups() {
    let audio = OutputUnit::Audio(AudioOutput {
        audio_path: "x.wav".to_string(),
        display_text: DisplayText::new("hey".to_string()),
        transcript: "hey".to_string(),
        actions: Actions::new(),
    });
    match unit_event(audio, None, true) {
        OutboundEvent::Audio { audio_path, forwarded, display_text, .. } => {
            assert_eq!(audio_path.as_deref(), Some("x.wav"));
            assert!(forwarded);
            assert_eq!(display_text.line(), "AI: hey");
        }
        _ => panic!("expected an audio event"),
    }
    let mut groups = ChatGroupManager::new();
    groups.add_client_to_group("a", "b").unwrap();
    match group_update(&groups, "a") {
        OutboundEvent::GroupUpdate { members, is_owner } => {
            assert_eq!(members.len(), 2);
            assert!(is_owner);
        }
        _ => panic!("expected a group update"),
    }
}

#[test]
fn numbers_in_decimal() {
    assert_eq!(decimal_text(0), "0");
    assert_eq!(decimal_text(1207), "1207");
    let v = ConfigValue::Table(vec![("t".to_string(), ConfigValue::Number(Num::UInt(3)))]);
    assert_eq!(v.u64_at("t"), Some(3));
    assert_eq!(v.u64_at("missing"), None);
    assert!(v.str_at("t").is_none());
}
