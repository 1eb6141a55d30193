use vstd::prelude::*;

use crate::config_value::ConfigValue;
use crate::factory::text_opt;
use crate::memory::opt_view;
use crate::text::{copy_opt, joined, owned, text_eq};

verus! {

/// A message sent to the model service.
#[derive(Clone, Debug)]
pub struct Message {
    pub role: String,
    pub content: String,
}

/// The model service's answer.
#[derive(Clone, Debug)]
pub struct AgentResponse {
    pub text: String,
    pub success: bool,
}

/// The speech recognizer's answer.
#[derive(Clone, Debug)]
pub struct ASRResponse {
    pub text: String,
    pub success: bool,
}

/// The speech synthesizer's answer.
#[derive(Clone, Debug)]
pub struct TTSResponse {
    pub audio_path: String,
    pub success: bool,
    pub error: Option<String>,
}

/// A voice conversion request.
#[derive(Clone, Debug)]
pub struct RVCRequest {
    pub audio_path: String,
    pub model: String,
}

/// The voice converter's answer.
#[derive(Clone, Debug)]
pub struct RVCResponse {
    pub audio_path: String,
    pub success: bool,
}

/// A translation request.
#[derive(Clone, Debug)]
pub struct TranslateRequest {
    pub text: String,
    pub source_lang: Option<String>,
    pub target_lang: String,
}

/// The translator's answer.
#[derive(Clone, Debug)]
pub struct TranslateResponse {
    pub translated_text: String,
    pub success: bool,
}

/// Settings of speech synthesis: the chosen engine and the settings of some engines; the
/// settings of the others are gathered in `other_configs`.
#[derive(Debug)]
pub struct TTSConfig {
    pub tts_model: String,
    pub azure_tts: Option<ConfigValue>,
    pub bark_tts: Option<ConfigValue>,
    pub edge_tts: Option<ConfigValue>,
    pub melo_tts: Option<ConfigValue>,
    pub other_configs: Option<ConfigValue>,
}

/// The text under `key` of optional settings.
pub open spec fn opt_str_at(v: Option<ConfigValue>, key: Seq<char>) -> Option<Seq<char>> {
    match v {
        Some(c) => c.spec_str_at(key),
        None => None,
    }
}

/// The default voice and language that the settings give the chosen engine: Azure and Edge
/// name a voice, Melo a speaker and a language; for other engines the gathered settings are
/// read for a voice (or else a speaker) and a language.
pub open spec fn voice_and_language(cfg: TTSConfig) -> (Option<Seq<char>>, Option<Seq<char>>) {
    let m = cfg.tts_model@;
    if m == "azure_tts"@ {
        (opt_str_at(cfg.azure_tts, "voice"@), None)
    } else if m == "edge_tts"@ {
        (opt_str_at(cfg.edge_tts, "voice"@), None)
    } else if m == "melo_tts"@ {
        (opt_str_at(cfg.melo_tts, "speaker"@), opt_str_at(cfg.melo_tts, "language"@))
    } else {
        (
            match cfg.other_configs {
                Some(c) => match c.spec_get("voice"@) {
                    Some(v) => v.spec_as_str(),
                    None => c.spec_str_at("speaker"@),
                },
                None => None,
            },
            opt_str_at(cfg.other_configs, "language"@),
        )
    }
}

fn text_at(v: &Option<ConfigValue>, key: &str) -> (r: Option<String>)
    ensures
        opt_view(r) == opt_str_at(*v, key@),
{
    match v {
        Some(c) => text_opt(c, key),
        None => None,
    }
}

/// Builds speech synthesizers from configuration.
pub struct TTSFactory;

impl TTSFactory {
    /// The default voice and language of the configured engine.
    pub fn extract_config_from_tts_config(tts_config: &TTSConfig) -> (r: (
        Option<String>,
        Option<String>,
    ))
        ensures
            (opt_view(r.0), opt_view(r.1)) == voice_and_language(*tts_config),
    {
        let m = tts_config.tts_model.as_str();
        if text_eq(m, "azure_tts") {
            (text_at(&tts_config.azure_tts, "voice"), None)
        } else if text_eq(m, "edge_tts") {
            (text_at(&tts_config.edge_tts, "voice"), None)
        } else if text_eq(m, "melo_tts") {
            (text_at(&tts_config.melo_tts, "speaker"), text_at(&tts_config.melo_tts, "language"))
        } else {
            let voice = match &tts_config.other_configs {
                Some(c) => match c.get("voice") {
                    Some(ConfigValue::Str(s)) => Some(s.clone()),
                    Some(_) => None,
                    None => text_opt(c, "speaker"),
                },
                None => None,
            };
            (voice, text_at(&tts_config.other_configs, "language"))
        }
    }

    /// A synthesizer client with the configured engine's default voice and language.
    pub fn create_tts(tts_config: &TTSConfig) -> (r: TTSClient)
        ensures
            (opt_view(r.default_voice), opt_view(r.default_language)) == voice_and_language(
                *tts_config,
            ),
    {
        let (voice, language) = Self::extract_config_from_tts_config(tts_config);
        TTSClient::new(voice, language)
    }
}

/// A synthesis request: the text, and the voice and language to use.
#[derive(Clone, Debug)]
pub struct TTSRequest {
    pub text: String,
    pub voice: Option<String>,
    pub language: Option<String>,
}

/// Asks the synthesis service for speech, with default voice and language.
#[derive(Clone, Debug)]
pub struct TTSClient {
    pub default_voice: Option<String>,
    pub default_language: Option<String>,
}

/// `given` if there is one, else `default`.
pub open spec fn or_default(given: Option<Seq<char>>, default: Option<String>) -> Option<
    Seq<char>,
> {
    match given {
        Some(g) => Some(g),
        None => opt_view(default),
    }
}

impl TTSClient {
    pub fn new(default_voice: Option<String>, default_language: Option<String>) -> (r: Self)
        ensures
            r.default_voice == default_voice,
            r.default_language == default_language,
    {
        TTSClient { default_voice, default_language }
    }

    /// The request for `text`: the voice and language given, or else the defaults.
    pub fn request(&self, text: &str, voice: Option<&str>, language: Option<&str>) -> (r:
        TTSRequest)
        ensures
            r.text@ == text@,
            opt_view(r.voice) == or_default(crate::factory::opt_str(voice), self.default_voice),
            opt_view(r.language) == or_default(
                crate::factory::opt_str(language),
                self.default_language,
            ),
    {
        TTSRequest {
            text: owned(text),
            voice: match voice {
                Some(v) => Some(owned(v)),
                None => copy_opt(&self.default_voice),
            },
            language: match language {
                Some(l) => Some(owned(l)),
                None => copy_opt(&self.default_language),
            },
        }
    }

    /// The outcome of a synthesis: the audio file on success, else the service's error, or
    /// "Unknown error" when it gave none.
    pub fn synthesis_result(response: TTSResponse) -> (r: Result<String, String>)
        ensures
            response.success ==> r == Ok::<String, String>(response.audio_path),
            !response.success ==> (r matches Err(e) && e@ == "TTS synthesis failed: "@ + match response.error {
                Some(m) => m@,
                None => "Unknown error"@,
            }),
    {
        if response.success {
            Ok(response.audio_path)
        } else {
            let msg = match &response.error {
                Some(m) => owned(m.as_str()),
                None => owned("Unknown error"),
            };
            Err(joined("TTS synthesis failed: ", msg.as_str()))
        }
    }
}

} // verus!
